use ironnotify::{
    get_client, init, init_with_options, ConnectionState, NotificationPayload, NotifyClient,
    NotifyOptions, SendResult,
};

fn payload(name: &str) -> NotificationPayload {
    NotificationPayload::new(name, name)
}

fn client_with_room(max_size: usize) -> NotifyClient {
    let options = NotifyOptions::builder()
        .api_key("ak_test_1")
        .max_offline_queue_size(max_size)
        .build()
        .unwrap();
    NotifyClient::new(options, None).unwrap()
}

fn client_without_queue() -> NotifyClient {
    let options = NotifyOptions::builder()
        .api_key("ak_test_1")
        .enable_offline_queue(false)
        .build()
        .unwrap();
    NotifyClient::new(options, None).unwrap()
}

fn queued_titles(client: &NotifyClient) -> Vec<String> {
    client.queue().unwrap().get_all().into_iter().map(|p| p.title).collect()
}

/// Runs one whole flush against a service that answers the probe with
/// `reachable` and delivers exactly the payloads whose title `delivers`
/// accepts. Returns the titles in the order in which they were attempted.
fn run_flush(
    client: &mut NotifyClient,
    reachable: bool,
    delivers: &dyn Fn(&str) -> bool,
) -> (bool, Vec<String>) {
    let mut attempted = Vec::new();
    let mut probed = false;
    let mut flush = client.flush();
    if flush.needs_probe() {
        probed = true;
        client.flush_probed(&mut flush, reachable);
    }
    loop {
        let next = match flush.next() {
            Some(p) => p.clone(),
            None => break,
        };
        attempted.push(next.title.clone());
        let result = if delivers(&next.title) {
            SendResult::success(None)
        } else {
            SendResult::failure("down")
        };
        client.flush_attempted(&mut flush, &result);
    }
    assert!(flush.is_finished());
    (probed, attempted)
}

#[test]
fn new_client_needs_an_api_key() {
    let result = NotifyClient::new(NotifyOptions::new(""), None);
    assert_eq!(result.err(), Some("API key is required"));
    let result = NotifyClient::new(NotifyOptions::default(), Some(vec![payload("a")]));
    assert_eq!(result.err(), Some("API key is required"));
}

#[test]
fn new_client_starts_online_and_disconnected() {
    let client = NotifyClient::new(NotifyOptions::new("ak_live_1"), None).unwrap();
    assert!(client.is_online());
    assert_eq!(client.connection_state(), ConnectionState::Disconnected);
    let queue = client.queue().unwrap();
    assert!(queue.is_empty());
    assert_eq!(queue.capacity(), 100);
    assert_eq!(client.options().api_key, "ak_live_1");
}

#[test]
fn new_client_without_queue_has_none() {
    let client = client_without_queue();
    assert!(client.queue().is_none());
    assert!(client.is_online());
}

#[test]
fn new_client_takes_up_the_stored_backlog() {
    let options = NotifyOptions::builder()
        .api_key("k")
        .max_offline_queue_size(2)
        .debug(true)
        .build()
        .unwrap();
    let stored = vec![payload("a"), payload("b"), payload("c")];
    let client = NotifyClient::new(options, Some(stored)).unwrap();
    assert_eq!(queued_titles(&client), vec!["b", "c"]);
    assert!(client.queue().unwrap().is_debug());
    assert_eq!(client.queue().unwrap().capacity(), 2);
}

#[test]
fn stored_backlog_is_dropped_without_queue() {
    let options = NotifyOptions::builder()
        .api_key("k")
        .enable_offline_queue(false)
        .build()
        .unwrap();
    let client = NotifyClient::new(options, Some(vec![payload("a")])).unwrap();
    assert!(client.queue().is_none());
}

#[test]
fn delivered_payload_never_touches_the_queue() {
    let mut client = client_with_room(3);
    let result = client.send_payload(&payload("a"), SendResult::success(Some("n1".to_string())));
    assert!(result.success);
    assert!(!result.queued);
    assert_eq!(result.notification_id.as_deref(), Some("n1"));
    assert_eq!(result.error, None);
    assert_eq!(client.queue().unwrap().size(), 0);
    assert!(client.is_online());
}

#[test]
fn delivered_payload_leaves_the_offline_flag_alone() {
    let mut client = client_with_room(3);
    client.send_payload(&payload("a"), SendResult::failure("down"));
    assert!(!client.is_online());
    let result = client.send_payload(&payload("b"), SendResult::success(None));
    assert!(result.success);
    assert!(!client.is_online());
    assert_eq!(queued_titles(&client), vec!["a"]);
}

#[test]
fn failed_payload_is_queued_with_the_reason() {
    let mut client = client_with_room(3);
    let result = client.send_payload(&payload("a"), SendResult::failure("HTTP 503"));
    assert!(!result.success);
    assert!(result.queued);
    assert_eq!(result.error.as_deref(), Some("HTTP 503"));
    assert_eq!(result.notification_id, None);
    assert_eq!(client.queue().unwrap().size(), 1);
    assert_eq!(queued_titles(&client), vec!["a"]);
    assert!(!client.is_online());
}

#[test]
fn failure_without_a_reason_is_queued_with_an_empty_one() {
    let mut client = client_with_room(3);
    let attempt = SendResult {
        success: false,
        notification_id: None,
        error: None,
        queued: false,
    };
    let result = client.send_payload(&payload("a"), attempt);
    assert!(result.queued);
    assert_eq!(result.error.as_deref(), Some(""));
}

#[test]
fn failed_payload_without_queue_is_reported_as_it_came() {
    let mut client = client_without_queue();
    let result = client.send_payload(&payload("a"), SendResult::failure("timeout"));
    assert!(!result.success);
    assert!(!result.queued);
    assert_eq!(result.error.as_deref(), Some("timeout"));
    assert!(client.is_online());
    assert!(client.queue().is_none());
}

#[test]
fn failures_beyond_capacity_evict_the_oldest() {
    let mut client = client_with_room(2);
    for name in ["A", "B", "C"] {
        let result = client.send_payload(&payload(name), SendResult::failure("down"));
        assert!(result.queued);
    }
    assert_eq!(queued_titles(&client), vec!["B", "C"]);
}

#[test]
fn send_payload_keeps_the_callers_payload() {
    let mut client = client_with_room(2);
    let p = payload("a");
    client.send_payload(&p, SendResult::failure("down"));
    assert_eq!(p.title, "a");
    assert_eq!(queued_titles(&client), vec!["a"]);
}

#[test]
fn flush_without_queue_is_over_at_once() {
    let mut client = client_without_queue();
    let flush = client.flush();
    assert!(!flush.needs_probe());
    assert!(flush.next().is_none());
    assert!(flush.is_finished());
    let (probed, attempted) = run_flush(&mut client, true, &|_| true);
    assert!(!probed);
    assert!(attempted.is_empty());
}

#[test]
fn flush_of_an_empty_queue_asks_for_no_probe() {
    let mut client = client_with_room(3);
    let (probed, attempted) = run_flush(&mut client, true, &|_| true);
    assert!(!probed);
    assert!(attempted.is_empty());
    assert!(client.is_online());
    assert!(client.queue().unwrap().is_empty());
}

#[test]
fn flush_of_an_empty_queue_leaves_the_offline_flag() {
    let mut client = client_with_room(0);
    let result = client.send_payload(&payload("a"), SendResult::failure("down"));
    assert!(result.queued);
    assert!(!client.is_online());
    assert!(client.queue().unwrap().is_empty());
    let (probed, attempted) = run_flush(&mut client, true, &|_| true);
    assert!(!probed);
    assert!(attempted.is_empty());
    assert!(!client.is_online());
}

#[test]
fn full_queue_does_not_grow_on_failure() {
    let mut client = client_with_room(1);
    client.send_payload(&payload("a"), SendResult::failure("down"));
    assert_eq!(client.queue().unwrap().size(), 1);
    let result = client.send_payload(&payload("b"), SendResult::failure("down"));
    assert!(result.queued);
    assert_eq!(client.queue().unwrap().size(), 1);
    assert_eq!(queued_titles(&client), vec!["b"]);
}

#[test]
fn flush_with_unreachable_service_changes_nothing() {
    let mut client = client_with_room(3);
    client.send_payload(&payload("a"), SendResult::failure("down"));
    client.send_payload(&payload("b"), SendResult::failure("down"));
    let (probed, attempted) = run_flush(&mut client, false, &|_| true);
    assert!(probed);
    assert!(attempted.is_empty());
    assert_eq!(queued_titles(&client), vec!["a", "b"]);
    assert_eq!(client.queue().unwrap().size(), 2);
    assert!(!client.is_online());
}

#[test]
fn flush_with_all_delivered_empties_the_queue() {
    let mut client = client_with_room(5);
    for name in ["a", "b", "c"] {
        client.send_payload(&payload(name), SendResult::failure("down"));
    }
    assert!(!client.is_online());
    let (probed, attempted) = run_flush(&mut client, true, &|_| true);
    assert!(probed);
    assert_eq!(attempted, vec!["c", "b", "a"]);
    assert!(client.queue().unwrap().is_empty());
    assert!(client.is_online());
}

#[test]
fn flush_halts_when_the_newest_fails() {
    let mut client = client_with_room(5);
    for name in ["a", "b", "c"] {
        client.send_payload(&payload(name), SendResult::failure("down"));
    }
    let (_, attempted) = run_flush(&mut client, true, &|title| title != "c");
    assert_eq!(attempted, vec!["c"]);
    assert_eq!(queued_titles(&client), vec!["a", "b", "c"]);
    assert!(client.is_online());
}

#[test]
fn flush_halts_at_the_first_failure_in_the_middle() {
    let mut client = client_with_room(5);
    for name in ["a", "b", "c", "d"] {
        client.send_payload(&payload(name), SendResult::failure("down"));
    }
    let (_, attempted) = run_flush(&mut client, true, &|title| title != "b");
    assert_eq!(attempted, vec!["d", "c", "b"]);
    assert_eq!(queued_titles(&client), vec!["a", "b"]);
}

#[test]
fn scenario_capacity_two_newest_fails() {
    let mut client = client_with_room(2);
    for name in ["A", "B", "C"] {
        client.send_payload(&payload(name), SendResult::failure("down"));
    }
    assert_eq!(queued_titles(&client), vec!["B", "C"]);
    let mut flush = client.flush();
    assert!(flush.needs_probe());
    client.flush_probed(&mut flush, true);
    assert_eq!(flush.next().unwrap().title, "C");
    client.flush_attempted(&mut flush, &SendResult::failure("down"));
    assert!(flush.next().is_none());
    assert!(flush.is_finished());
    assert_eq!(queued_titles(&client), vec!["B", "C"]);
}

#[test]
fn flush_steps_out_of_turn_change_nothing() {
    let mut client = client_with_room(3);
    client.send_payload(&payload("a"), SendResult::failure("down"));
    let mut flush = client.flush();
    client.flush_attempted(&mut flush, &SendResult::success(None));
    assert!(flush.needs_probe());
    assert_eq!(queued_titles(&client), vec!["a"]);
    client.flush_probed(&mut flush, false);
    assert!(flush.is_finished());
    client.flush_probed(&mut flush, true);
    assert!(flush.is_finished());
    assert!(!client.is_online());
    assert_eq!(queued_titles(&client), vec!["a"]);
}

#[test]
fn flush_removes_by_the_place_in_the_snapshot() {
    let mut client = client_with_room(5);
    for name in ["a", "b"] {
        client.send_payload(&payload(name), SendResult::failure("down"));
    }
    let mut flush = client.flush();
    client.flush_probed(&mut flush, true);
    client.send_payload(&payload("late"), SendResult::failure("down"));
    assert_eq!(flush.next().unwrap().title, "b");
    client.flush_attempted(&mut flush, &SendResult::success(None));
    assert_eq!(queued_titles(&client), vec!["a", "late"]);
    assert_eq!(flush.next().unwrap().title, "a");
    client.flush_attempted(&mut flush, &SendResult::success(None));
    assert_eq!(queued_titles(&client), vec!["late"]);
    assert!(flush.is_finished());
}

#[test]
fn connect_and_disconnect_only_change_the_state() {
    let mut client = client_with_room(3);
    client.send_payload(&payload("a"), SendResult::failure("down"));
    client.connect();
    assert_eq!(client.connection_state(), ConnectionState::Connected);
    assert!(!client.is_online());
    assert_eq!(queued_titles(&client), vec!["a"]);
    client.connect();
    assert_eq!(client.connection_state(), ConnectionState::Connected);
    client.disconnect();
    assert_eq!(client.connection_state(), ConnectionState::Disconnected);
    assert_eq!(queued_titles(&client), vec!["a"]);
}

#[test]
fn client_event_starts_a_builder() {
    let client = client_with_room(3);
    let built = client.event("order.created").with_title("T").build().unwrap();
    assert_eq!(built.event_type, "order.created");
    assert_eq!(built.title, "T");
}

#[test]
fn init_fills_the_slot_once() {
    let mut slot = None;
    assert_eq!(get_client(&slot).err(), Some("Not initialized. Call init() first."));
    assert_eq!(init(&mut slot, "ak_live_1", None), Ok(()));
    let client = get_client(&slot).unwrap();
    assert_eq!(client.options().api_key, "ak_live_1");
    assert_eq!(client.options().api_base_url, "https://api.ironnotify.com");
    assert_eq!(init(&mut slot, "ak_live_2", None), Err("Already initialized"));
    assert_eq!(get_client(&slot).unwrap().options().api_key, "ak_live_1");
}

#[test]
fn init_without_key_fails_first() {
    let mut slot = None;
    assert_eq!(init(&mut slot, "", None), Err("API key is required"));
    assert!(slot.is_none());
    assert_eq!(init(&mut slot, "k", None), Ok(()));
    assert_eq!(init(&mut slot, "", None), Err("API key is required"));
    assert!(slot.is_some());
}

#[test]
fn init_with_options_keeps_the_options_and_backlog() {
    let mut slot = None;
    let options = NotifyOptions::builder()
        .api_key("k")
        .max_offline_queue_size(1)
        .build()
        .unwrap();
    let stored = vec![payload("a"), payload("b")];
    assert_eq!(init_with_options(&mut slot, options, Some(stored)), Ok(()));
    let client = get_client(&slot).unwrap();
    assert_eq!(queued_titles(client), vec!["b"]);
    let again = NotifyOptions::new("other");
    assert_eq!(init_with_options(&mut slot, again, None), Err("Already initialized"));
    assert_eq!(queued_titles(get_client(&slot).unwrap()), vec!["b"]);
}

#[test]
fn global_event_needs_a_client() {
    let mut slot = None;
    assert_eq!(
        ironnotify::event(&slot, "x").err(),
        Some("Not initialized. Call init() first.")
    );
    init(&mut slot, "k", None).unwrap();
    let built = ironnotify::event(&slot, "x").unwrap().with_title("t").build().unwrap();
    assert_eq!(built.event_type, "x");
}
