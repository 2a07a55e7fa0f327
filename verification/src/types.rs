//! The values that travel through the library: payloads, the actions and
//! severity they carry, delivery results and connection states.

use crate::clock::Timestamp;
use crate::metadata::Metadata;
use vstd::prelude::*;

verus! {

/// How urgent a notification is.
#[derive(Debug, Clone, Copy, PartialEq, Eq, Structural)]
pub enum SeverityLevel {
    Info,
    Success,
    Warning,
    Error,
    Critical,
}

impl Default for SeverityLevel {
    fn default() -> (r: SeverityLevel)
        ensures
            r == SeverityLevel::Info,
    {
        SeverityLevel::Info
    }
}

impl SeverityLevel {
    /// The lower-case name under which the level is written.
    pub open spec fn name(self) -> Seq<char> {
        match self {
            SeverityLevel::Info => "info"@,
            SeverityLevel::Success => "success"@,
            SeverityLevel::Warning => "warning"@,
            SeverityLevel::Error => "error"@,
            SeverityLevel::Critical => "critical"@,
        }
    }

    /// The level's name as borrowed text.
    pub fn as_str(&self) -> (r: &'static str)
        ensures
            r@ == self.name(),
    {
        match self {
            SeverityLevel::Info => "info",
            SeverityLevel::Success => "success",
            SeverityLevel::Warning => "warning",
            SeverityLevel::Error => "error",
            SeverityLevel::Critical => "critical",
        }
    }

    /// The level's name as owned text.
    pub fn to_string(&self) -> (r: String)
        ensures
            r@ == self.name(),
    {
        self.as_str().to_owned()
    }
}

/// The state of the real-time connection as callers may observe it.
#[derive(Debug, Clone, Copy, PartialEq, Eq, Structural)]
pub enum ConnectionState {
    Disconnected,
    Connecting,
    Connected,
    Reconnecting,
}

impl Default for ConnectionState {
    fn default() -> (r: ConnectionState)
        ensures
            r == ConnectionState::Disconnected,
    {
        ConnectionState::Disconnected
    }
}

impl ConnectionState {
    /// The lower-case name under which the state is written.
    pub open spec fn name(self) -> Seq<char> {
        match self {
            ConnectionState::Disconnected => "disconnected"@,
            ConnectionState::Connecting => "connecting"@,
            ConnectionState::Connected => "connected"@,
            ConnectionState::Reconnecting => "reconnecting"@,
        }
    }

    /// The state's name as borrowed text.
    pub fn as_str(&self) -> (r: &'static str)
        ensures
            r@ == self.name(),
    {
        match self {
            ConnectionState::Disconnected => "disconnected",
            ConnectionState::Connecting => "connecting",
            ConnectionState::Connected => "connected",
            ConnectionState::Reconnecting => "reconnecting",
        }
    }

    /// The state's name as owned text.
    pub fn to_string(&self) -> (r: String)
        ensures
            r@ == self.name(),
    {
        self.as_str().to_owned()
    }
}

/// The style tag that a new action carries.
pub open spec fn default_style() -> Seq<char> {
    "default"@
}

/// What an action is, with every text as a sequence of characters.
pub struct ActionView {
    pub label: Seq<char>,
    pub url: Option<Seq<char>>,
    pub action: Option<Seq<char>>,
    pub style: Option<Seq<char>>,
}

/// A button on a notification: a label and a link or the name of a handler.
#[derive(Debug)]
pub struct NotificationAction {
    pub label: String,
    pub url: Option<String>,
    pub action: Option<String>,
    pub style: Option<String>,
}

impl View for NotificationAction {
    type V = ActionView;

    open spec fn view(&self) -> ActionView {
        ActionView {
            label: self.label@,
            url: self.url.deep_view(),
            action: self.action.deep_view(),
            style: self.style.deep_view(),
        }
    }
}

impl DeepView for NotificationAction {
    type V = ActionView;

    open spec fn deep_view(&self) -> ActionView {
        self@
    }
}

/// A copy of an optional text.
pub(crate) fn clone_text(text: &Option<String>) -> (r: Option<String>)
    ensures
        r.deep_view() == text.deep_view(),
{
    match text {
        Some(t) => Some(t.clone()),
        None => None,
    }
}

impl Clone for NotificationAction {
    fn clone(&self) -> (r: NotificationAction)
        ensures
            r@ == self@,
    {
        NotificationAction {
            label: self.label.clone(),
            url: clone_text(&self.url),
            action: clone_text(&self.action),
            style: clone_text(&self.style),
        }
    }
}

impl NotificationAction {
    /// An action that has a label only.
    pub fn new(label: &str) -> (r: NotificationAction)
        ensures
            r@ == (ActionView {
                label: label@,
                url: None,
                action: None,
                style: Some(default_style()),
            }),
    {
        NotificationAction {
            label: label.to_owned(),
            url: None,
            action: None,
            style: Some("default".to_owned()),
        }
    }

    /// An action that opens `url`.
    pub fn with_url(label: &str, url: &str) -> (r: NotificationAction)
        ensures
            r@ == (ActionView {
                label: label@,
                url: Some(url@),
                action: None,
                style: Some(default_style()),
            }),
    {
        NotificationAction {
            label: label.to_owned(),
            url: Some(url.to_owned()),
            action: None,
            style: Some("default".to_owned()),
        }
    }

    /// An action that runs the handler called `action`.
    pub fn with_handler(label: &str, action: &str) -> (r: NotificationAction)
        ensures
            r@ == (ActionView {
                label: label@,
                url: None,
                action: Some(action@),
                style: Some(default_style()),
            }),
    {
        NotificationAction {
            label: label.to_owned(),
            url: None,
            action: Some(action.to_owned()),
            style: Some("default".to_owned()),
        }
    }

    /// The same action under another style tag.
    pub fn style(self, style: &str) -> (r: NotificationAction)
        ensures
            r@ == (ActionView { style: Some(style@), ..self@ }),
    {
        let mut action = self;
        action.style = Some(style.to_owned());
        action
    }
}

/// A copy of a list of actions.
pub(crate) fn clone_actions(actions: &Vec<NotificationAction>) -> (r: Vec<NotificationAction>)
    ensures
        r.deep_view() == actions.deep_view(),
{
    let mut copy: Vec<NotificationAction> = Vec::new();
    let mut i: usize = 0;
    while i < actions.len()
        invariant
            i <= actions@.len(),
            copy@.len() == i,
            forall|j: int| 0 <= j < i ==> (#[trigger] copy@[j])@ == actions@[j]@,
        decreases actions@.len() - i,
    {
        copy.push(actions[i].clone());
        i += 1;
    }
    assert(copy.deep_view() =~= actions.deep_view());
    copy
}

/// What a payload is, with every text as a sequence of characters and every
/// collection as a mathematical one.
pub struct PayloadView {
    pub event_type: Seq<char>,
    pub title: Seq<char>,
    pub message: Option<Seq<char>>,
    pub severity: Option<SeverityLevel>,
    pub metadata: Option<Map<Seq<char>, serde_json::Value>>,
    pub actions: Option<Seq<ActionView>>,
    pub user_id: Option<Seq<char>>,
    pub group_key: Option<Seq<char>>,
    pub deduplication_key: Option<Seq<char>>,
    pub expires_at: Option<Timestamp>,
}

/// The payload that names an event and its title and leaves everything else
/// at its default: severity `Info`, nothing more.
pub open spec fn plain_payload(event_type: Seq<char>, title: Seq<char>) -> PayloadView {
    PayloadView {
        event_type,
        title,
        message: None,
        severity: Some(SeverityLevel::Info),
        metadata: None,
        actions: None,
        user_id: None,
        group_key: None,
        deduplication_key: None,
        expires_at: None,
    }
}

/// One notification to deliver.
#[derive(Debug)]
pub struct NotificationPayload {
    pub event_type: String,
    pub title: String,
    pub message: Option<String>,
    pub severity: Option<SeverityLevel>,
    pub metadata: Option<Metadata>,
    pub actions: Option<Vec<NotificationAction>>,
    pub user_id: Option<String>,
    pub group_key: Option<String>,
    pub deduplication_key: Option<String>,
    pub expires_at: Option<Timestamp>,
}

impl View for NotificationPayload {
    type V = PayloadView;

    open spec fn view(&self) -> PayloadView {
        PayloadView {
            event_type: self.event_type@,
            title: self.title@,
            message: self.message.deep_view(),
            severity: self.severity,
            metadata: self.metadata.deep_view(),
            actions: self.actions.deep_view(),
            user_id: self.user_id.deep_view(),
            group_key: self.group_key.deep_view(),
            deduplication_key: self.deduplication_key.deep_view(),
            expires_at: self.expires_at,
        }
    }
}

impl DeepView for NotificationPayload {
    type V = PayloadView;

    open spec fn deep_view(&self) -> PayloadView {
        self@
    }
}

impl Clone for NotificationPayload {
    fn clone(&self) -> (r: NotificationPayload)
        ensures
            r@ == self@,
    {
        NotificationPayload {
            event_type: self.event_type.clone(),
            title: self.title.clone(),
            message: clone_text(&self.message),
            severity: self.severity,
            metadata: match &self.metadata {
                Some(m) => Some(m.clone()),
                None => None,
            },
            actions: match &self.actions {
                Some(a) => Some(clone_actions(a)),
                None => None,
            },
            user_id: clone_text(&self.user_id),
            group_key: clone_text(&self.group_key),
            deduplication_key: clone_text(&self.deduplication_key),
            expires_at: self.expires_at,
        }
    }
}

impl NotificationPayload {
    /// A payload for the event `event_type` under the title `title`, with
    /// severity `Info` and nothing else set.
    pub fn new(event_type: &str, title: &str) -> (r: NotificationPayload)
        ensures
            r@ == plain_payload(event_type@, title@),
    {
        NotificationPayload {
            event_type: event_type.to_owned(),
            title: title.to_owned(),
            message: None,
            severity: Some(SeverityLevel::Info),
            metadata: None,
            actions: None,
            user_id: None,
            group_key: None,
            deduplication_key: None,
            expires_at: None,
        }
    }

    /// A payload with a message, a severity and metadata as the caller gives
    /// them; a severity left out counts as `Info`.
    pub fn with_options(
        event_type: &str,
        title: &str,
        message: Option<String>,
        severity: Option<SeverityLevel>,
        metadata: Option<Metadata>,
    ) -> (r: NotificationPayload)
        ensures
            r@ == (PayloadView {
                message: message.deep_view(),
                severity: Some(
                    match severity {
                        Some(level) => level,
                        None => SeverityLevel::Info,
                    },
                ),
                metadata: metadata.deep_view(),
                ..plain_payload(event_type@, title@)
            }),
    {
        let mut payload = NotificationPayload::new(event_type, title);
        payload.message = message;
        payload.severity = match severity {
            Some(level) => Some(level),
            None => Some(SeverityLevel::Info),
        };
        payload.metadata = metadata;
        payload
    }
}

/// What a reported notification is, with every text as a sequence of
/// characters and every collection as a mathematical one.
pub struct NotificationView {
    pub id: Seq<char>,
    pub event_type: Seq<char>,
    pub title: Seq<char>,
    pub message: Option<Seq<char>>,
    pub severity: SeverityLevel,
    pub metadata: Option<Map<Seq<char>, serde_json::Value>>,
    pub actions: Option<Seq<ActionView>>,
    pub user_id: Option<Seq<char>>,
    pub group_key: Option<Seq<char>>,
    pub read: bool,
    pub created_at: Timestamp,
    pub expires_at: Option<Timestamp>,
}

/// A notification as the service reports it.
#[derive(Debug)]
pub struct Notification {
    pub id: String,
    pub event_type: String,
    pub title: String,
    pub message: Option<String>,
    pub severity: SeverityLevel,
    pub metadata: Option<Metadata>,
    pub actions: Option<Vec<NotificationAction>>,
    pub user_id: Option<String>,
    pub group_key: Option<String>,
    pub read: bool,
    pub created_at: Timestamp,
    pub expires_at: Option<Timestamp>,
}

impl View for Notification {
    type V = NotificationView;

    open spec fn view(&self) -> NotificationView {
        NotificationView {
            id: self.id@,
            event_type: self.event_type@,
            title: self.title@,
            message: self.message.deep_view(),
            severity: self.severity,
            metadata: self.metadata.deep_view(),
            actions: self.actions.deep_view(),
            user_id: self.user_id.deep_view(),
            group_key: self.group_key.deep_view(),
            read: self.read,
            created_at: self.created_at,
            expires_at: self.expires_at,
        }
    }
}

impl Clone for Notification {
    fn clone(&self) -> (r: Notification)
        ensures
            r@ == self@,
    {
        Notification {
            id: self.id.clone(),
            event_type: self.event_type.clone(),
            title: self.title.clone(),
            message: clone_text(&self.message),
            severity: self.severity,
            metadata: match &self.metadata {
                Some(m) => Some(m.clone()),
                None => None,
            },
            actions: match &self.actions {
                Some(a) => Some(clone_actions(a)),
                None => None,
            },
            user_id: clone_text(&self.user_id),
            group_key: clone_text(&self.group_key),
            read: self.read,
            created_at: self.created_at,
            expires_at: self.expires_at,
        }
    }
}

/// What a delivery result is, with every text as a sequence of characters.
pub struct SendResultView {
    pub success: bool,
    pub notification_id: Option<Seq<char>>,
    pub error: Option<Seq<char>>,
    pub queued: bool,
}

/// The result of a delivery that the service accepted under `notification_id`.
pub open spec fn success_result(notification_id: Option<Seq<char>>) -> SendResultView {
    SendResultView { success: true, notification_id, error: None, queued: false }
}

/// The result of a delivery that failed for the reason `error`.
pub open spec fn failure_result(error: Seq<char>) -> SendResultView {
    SendResultView { success: false, notification_id: None, error: Some(error), queued: false }
}

/// The result of a delivery that failed for the reason `error` and whose
/// payload was put into the backlog.
pub open spec fn queued_result(error: Seq<char>) -> SendResultView {
    SendResultView { success: false, notification_id: None, error: Some(error), queued: true }
}

/// How an attempt to deliver a payload ended: delivered, failed, or failed
/// and kept for later.
#[derive(Debug)]
pub struct SendResult {
    pub success: bool,
    pub notification_id: Option<String>,
    pub error: Option<String>,
    pub queued: bool,
}

impl View for SendResult {
    type V = SendResultView;

    open spec fn view(&self) -> SendResultView {
        SendResultView {
            success: self.success,
            notification_id: self.notification_id.deep_view(),
            error: self.error.deep_view(),
            queued: self.queued,
        }
    }
}

impl Clone for SendResult {
    fn clone(&self) -> (r: SendResult)
        ensures
            r@ == self@,
    {
        SendResult {
            success: self.success,
            notification_id: clone_text(&self.notification_id),
            error: clone_text(&self.error),
            queued: self.queued,
        }
    }
}

impl SendResult {
    /// The result of a delivery that the service accepted.
    pub fn success(notification_id: Option<String>) -> (r: SendResult)
        ensures
            r@ == success_result(notification_id.deep_view()),
    {
        SendResult { success: true, notification_id, error: None, queued: false }
    }

    /// The result of a delivery that failed.
    pub fn failure(error: &str) -> (r: SendResult)
        ensures
            r@ == failure_result(error@),
    {
        SendResult { success: false, notification_id: None, error: Some(error.to_owned()), queued: false }
    }

    /// The result of a delivery that failed and was put into the backlog.
    pub fn queued(error: &str) -> (r: SendResult)
        ensures
            r@ == queued_result(error@),
    {
        SendResult { success: false, notification_id: None, error: Some(error.to_owned()), queued: true }
    }
}

} // verus!
