use ironnotify::{NotificationPayload, OfflineQueue};

fn payload(name: &str) -> NotificationPayload {
    NotificationPayload::new(name, name)
}

fn titles(queue: &OfflineQueue) -> Vec<String> {
    queue.get_all().into_iter().map(|p| p.title).collect()
}

#[test]
fn new_queue_without_storage_is_empty() {
    let queue = OfflineQueue::new(10, false, None);
    assert!(queue.is_empty());
    assert_eq!(queue.size(), 0);
    assert_eq!(queue.capacity(), 10);
    assert!(!queue.is_debug());
    assert!(queue.get_all().is_empty());
}

#[test]
fn add_appends_at_the_tail() {
    let mut queue = OfflineQueue::new(5, true, None);
    queue.add(payload("a"));
    queue.add(payload("b"));
    assert_eq!(titles(&queue), vec!["a", "b"]);
    assert_eq!(queue.size(), 2);
    assert!(!queue.is_empty());
    assert!(queue.is_debug());
}

#[test]
fn add_beyond_capacity_evicts_the_oldest() {
    let mut queue = OfflineQueue::new(2, false, None);
    queue.add(payload("A"));
    queue.add(payload("B"));
    queue.add(payload("C"));
    assert_eq!(titles(&queue), vec!["B", "C"]);
    assert_eq!(queue.size(), 2);
}

#[test]
fn adding_many_keeps_the_most_recent_in_order() {
    let max_size = 4;
    for extra in 1..6 {
        let mut queue = OfflineQueue::new(max_size, false, None);
        let total = max_size + extra;
        for i in 0..total {
            queue.add(payload(&format!("p{}", i)));
            assert!(queue.size() <= max_size);
        }
        let expected: Vec<String> = (extra..total).map(|i| format!("p{}", i)).collect();
        assert_eq!(titles(&queue), expected);
    }
}

#[test]
fn queue_without_room_stays_empty() {
    let mut queue = OfflineQueue::new(0, false, None);
    queue.add(payload("a"));
    assert!(queue.is_empty());
    assert_eq!(queue.size(), 0);
}

#[test]
fn queue_with_room_for_one_keeps_the_newest() {
    let mut queue = OfflineQueue::new(1, false, None);
    queue.add(payload("a"));
    queue.add(payload("b"));
    assert_eq!(titles(&queue), vec!["b"]);
}

#[test]
fn get_all_is_a_snapshot() {
    let mut queue = OfflineQueue::new(3, false, None);
    queue.add(payload("a"));
    let mut snapshot = queue.get_all();
    snapshot.push(payload("x"));
    snapshot[0].title = "changed".to_string();
    assert_eq!(titles(&queue), vec!["a"]);
    queue.add(payload("b"));
    assert_eq!(snapshot.len(), 2);
}

#[test]
fn get_all_copies_every_field() {
    let mut queue = OfflineQueue::new(3, false, None);
    let mut metadata = ironnotify::Metadata::new();
    metadata.insert("order".to_string(), serde_json::Value::from(7));
    let mut p = NotificationPayload::with_options(
        "order.created",
        "New order",
        Some("body".to_string()),
        Some(ironnotify::SeverityLevel::Warning),
        Some(metadata),
    );
    p.actions = Some(vec![ironnotify::NotificationAction::with_url("Open", "/o/7")]);
    p.user_id = Some("u1".to_string());
    p.group_key = Some("g".to_string());
    p.deduplication_key = Some("d".to_string());
    p.expires_at = Some(ironnotify::Timestamp::new(1_700_000_000, 5));
    queue.add(p);
    let copy = &queue.get_all()[0];
    assert_eq!(copy.event_type, "order.created");
    assert_eq!(copy.title, "New order");
    assert_eq!(copy.message.as_deref(), Some("body"));
    assert_eq!(copy.severity, Some(ironnotify::SeverityLevel::Warning));
    assert_eq!(
        copy.metadata.as_ref().unwrap().get("order"),
        Some(&serde_json::Value::from(7))
    );
    let actions = copy.actions.as_ref().unwrap();
    assert_eq!(actions.len(), 1);
    assert_eq!(actions[0].label, "Open");
    assert_eq!(actions[0].url.as_deref(), Some("/o/7"));
    assert_eq!(copy.user_id.as_deref(), Some("u1"));
    assert_eq!(copy.group_key.as_deref(), Some("g"));
    assert_eq!(copy.deduplication_key.as_deref(), Some("d"));
    assert_eq!(copy.expires_at, Some(ironnotify::Timestamp::new(1_700_000_000, 5)));
}

#[test]
fn remove_in_bounds_takes_that_element_out() {
    let mut queue = OfflineQueue::new(5, false, None);
    queue.add(payload("a"));
    queue.add(payload("b"));
    queue.add(payload("c"));
    queue.remove(1);
    assert_eq!(titles(&queue), vec!["a", "c"]);
    queue.remove(0);
    assert_eq!(titles(&queue), vec!["c"]);
    queue.remove(0);
    assert!(queue.is_empty());
}

#[test]
fn remove_out_of_bounds_changes_nothing() {
    let mut queue = OfflineQueue::new(5, false, None);
    queue.remove(0);
    assert!(queue.is_empty());
    queue.add(payload("a"));
    queue.add(payload("b"));
    queue.remove(2);
    queue.remove(usize::MAX);
    assert_eq!(titles(&queue), vec!["a", "b"]);
}

#[test]
fn clear_empties_the_queue() {
    let mut queue = OfflineQueue::new(5, false, None);
    queue.add(payload("a"));
    queue.add(payload("b"));
    queue.clear();
    assert!(queue.is_empty());
    assert_eq!(queue.size(), 0);
    assert_eq!(queue.capacity(), 5);
    queue.add(payload("c"));
    assert_eq!(titles(&queue), vec!["c"]);
}

#[test]
fn stored_payloads_come_back_in_order() {
    let mut first = OfflineQueue::new(3, false, None);
    first.add(payload("a"));
    first.add(payload("b"));
    let second = OfflineQueue::new(3, false, Some(first.get_all()));
    assert_eq!(titles(&second), vec!["a", "b"]);
    assert_eq!(titles(&second), titles(&first));
}

#[test]
fn round_trip_after_eviction() {
    let mut first = OfflineQueue::new(2, false, None);
    for name in ["a", "b", "c", "d"] {
        first.add(payload(name));
    }
    let second = OfflineQueue::new(2, false, Some(first.get_all()));
    assert_eq!(titles(&second), vec!["c", "d"]);
}

#[test]
fn unreadable_storage_starts_empty() {
    let queue = OfflineQueue::new(3, true, None);
    assert!(queue.is_empty());
    let queue = OfflineQueue::new(3, true, Some(Vec::new()));
    assert!(queue.is_empty());
}

#[test]
fn stored_beyond_capacity_keeps_the_newest() {
    let stored = vec![payload("a"), payload("b"), payload("c"), payload("d")];
    let queue = OfflineQueue::new(3, false, Some(stored));
    assert_eq!(titles(&queue), vec!["b", "c", "d"]);
    let stored = vec![payload("a"), payload("b")];
    let queue = OfflineQueue::new(0, false, Some(stored));
    assert!(queue.is_empty());
}
