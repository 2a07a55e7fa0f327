use ironnotify::{
    ConnectionState, Metadata, NotificationAction, NotificationPayload, SendResult, SeverityLevel,
    Timestamp,
};

#[test]
fn severity_names() {
    assert_eq!(SeverityLevel::Info.to_string(), "info");
    assert_eq!(SeverityLevel::Success.to_string(), "success");
    assert_eq!(SeverityLevel::Warning.to_string(), "warning");
    assert_eq!(SeverityLevel::Error.to_string(), "error");
    assert_eq!(SeverityLevel::Critical.to_string(), "critical");
    assert_eq!(SeverityLevel::Critical.as_str(), "critical");
    assert_eq!(SeverityLevel::default(), SeverityLevel::Info);
}

#[test]
fn connection_state_names() {
    assert_eq!(ConnectionState::Disconnected.to_string(), "disconnected");
    assert_eq!(ConnectionState::Connecting.to_string(), "connecting");
    assert_eq!(ConnectionState::Connected.to_string(), "connected");
    assert_eq!(ConnectionState::Reconnecting.to_string(), "reconnecting");
    assert_eq!(ConnectionState::Connected.as_str(), "connected");
    assert_eq!(ConnectionState::default(), ConnectionState::Disconnected);
}

#[test]
fn action_with_label_only() {
    let action = NotificationAction::new("View");
    assert_eq!(action.label, "View");
    assert_eq!(action.url, None);
    assert_eq!(action.action, None);
    assert_eq!(action.style.as_deref(), Some("default"));
}

#[test]
fn action_with_url() {
    let action = NotificationAction::with_url("Open", "https://example.com/x");
    assert_eq!(action.label, "Open");
    assert_eq!(action.url.as_deref(), Some("https://example.com/x"));
    assert_eq!(action.action, None);
    assert_eq!(action.style.as_deref(), Some("default"));
}

#[test]
fn action_with_handler() {
    let action = NotificationAction::with_handler("Retry", "retry_payment");
    assert_eq!(action.label, "Retry");
    assert_eq!(action.url, None);
    assert_eq!(action.action.as_deref(), Some("retry_payment"));
    assert_eq!(action.style.as_deref(), Some("default"));
}

#[test]
fn action_style_replaces_only_the_style() {
    let action = NotificationAction::with_url("Open", "/x").style("primary");
    assert_eq!(action.label, "Open");
    assert_eq!(action.url.as_deref(), Some("/x"));
    assert_eq!(action.action, None);
    assert_eq!(action.style.as_deref(), Some("primary"));
}

#[test]
fn action_clone_is_equal() {
    let action = NotificationAction::with_handler("Retry", "retry").style("danger");
    let copy = action.clone();
    assert_eq!(copy.label, "Retry");
    assert_eq!(copy.url, None);
    assert_eq!(copy.action.as_deref(), Some("retry"));
    assert_eq!(copy.style.as_deref(), Some("danger"));
}

#[test]
fn new_payload_has_only_the_defaults() {
    let payload = NotificationPayload::new("order.created", "New Order Received");
    assert_eq!(payload.event_type, "order.created");
    assert_eq!(payload.title, "New Order Received");
    assert_eq!(payload.message, None);
    assert_eq!(payload.severity, Some(SeverityLevel::Info));
    assert!(payload.metadata.is_none());
    assert!(payload.actions.is_none());
    assert_eq!(payload.user_id, None);
    assert_eq!(payload.group_key, None);
    assert_eq!(payload.deduplication_key, None);
    assert_eq!(payload.expires_at, None);
}

#[test]
fn payload_with_options_defaults_the_severity() {
    let payload = NotificationPayload::with_options("e", "t", None, None, None);
    assert_eq!(payload.severity, Some(SeverityLevel::Info));
    assert_eq!(payload.message, None);
    assert!(payload.metadata.is_none());
    let mut metadata = Metadata::new();
    metadata.insert("k".to_string(), serde_json::Value::from(true));
    let payload = NotificationPayload::with_options(
        "e",
        "t",
        Some("m".to_string()),
        Some(SeverityLevel::Critical),
        Some(metadata),
    );
    assert_eq!(payload.event_type, "e");
    assert_eq!(payload.title, "t");
    assert_eq!(payload.severity, Some(SeverityLevel::Critical));
    assert_eq!(payload.message.as_deref(), Some("m"));
    assert_eq!(payload.metadata.unwrap().get("k"), Some(&serde_json::Value::from(true)));
}

#[test]
fn success_result() {
    let result = SendResult::success(Some("n-1".to_string()));
    assert!(result.success);
    assert!(!result.queued);
    assert_eq!(result.notification_id.as_deref(), Some("n-1"));
    assert_eq!(result.error, None);
    let result = SendResult::success(None);
    assert!(result.success);
    assert_eq!(result.notification_id, None);
}

#[test]
fn failure_result() {
    let result = SendResult::failure("HTTP 500");
    assert!(!result.success);
    assert!(!result.queued);
    assert_eq!(result.notification_id, None);
    assert_eq!(result.error.as_deref(), Some("HTTP 500"));
}

#[test]
fn queued_result() {
    let result = SendResult::queued("connection refused");
    assert!(!result.success);
    assert!(result.queued);
    assert_eq!(result.notification_id, None);
    assert_eq!(result.error.as_deref(), Some("connection refused"));
}

#[test]
fn result_clone_is_equal() {
    let result = SendResult::queued("r");
    let copy = result.clone();
    assert_eq!(copy.success, result.success);
    assert_eq!(copy.queued, result.queued);
    assert_eq!(copy.error, result.error);
    assert_eq!(copy.notification_id, result.notification_id);
}

#[test]
fn timestamp_holds_its_parts() {
    let at = Timestamp::new(-5, 999_999_999);
    assert_eq!(at.secs, -5);
    assert_eq!(at.nanos, 999_999_999);
    assert_eq!(at, Timestamp { secs: -5, nanos: 999_999_999 });
    assert_ne!(at, Timestamp::new(-5, 0));
}

#[test]
fn metadata_starts_empty() {
    let metadata = Metadata::new();
    assert!(metadata.is_empty());
    assert!(metadata.keys().is_empty());
    assert_eq!(metadata.get("k"), None);
    assert!(!metadata.contains_key("k"));
}

#[test]
fn metadata_insert_and_get() {
    let mut metadata = Metadata::new();
    metadata.insert("a".to_string(), serde_json::Value::from(1));
    metadata.insert("b".to_string(), serde_json::Value::from("two"));
    assert!(!metadata.is_empty());
    assert!(metadata.contains_key("a"));
    assert!(metadata.contains_key("b"));
    assert!(!metadata.contains_key("c"));
    assert_eq!(metadata.get("a"), Some(&serde_json::Value::from(1)));
    assert_eq!(metadata.get("b"), Some(&serde_json::Value::from("two")));
    assert_eq!(metadata.keys(), vec!["a", "b"]);
}

#[test]
fn metadata_insert_replaces() {
    let mut metadata = Metadata::new();
    metadata.insert("a".to_string(), serde_json::Value::from(1));
    metadata.insert("b".to_string(), serde_json::Value::from(2));
    metadata.insert("a".to_string(), serde_json::Value::Null);
    assert_eq!(metadata.get("a"), Some(&serde_json::Value::Null));
    assert_eq!(metadata.get("b"), Some(&serde_json::Value::from(2)));
    assert_eq!(metadata.keys().len(), 2);
}

#[test]
fn metadata_clone_copies_the_values() {
    let mut metadata = Metadata::new();
    let nested = serde_json::Value::Array(vec![
        serde_json::Value::from(1),
        serde_json::Value::from("x"),
    ]);
    metadata.insert("list".to_string(), nested.clone());
    let mut copy = metadata.clone();
    assert_eq!(copy.get("list"), Some(&nested));
    copy.insert("list".to_string(), serde_json::Value::Null);
    copy.insert("more".to_string(), serde_json::Value::from(1));
    assert_eq!(metadata.get("list"), Some(&nested));
    assert!(!metadata.contains_key("more"));
}
