//! Building a payload step by step.

use crate::clock::{now, shift, shifted, signed_span, to_signed_span, Timestamp};
use crate::metadata::Metadata;
use crate::types::{
    failure_result, ActionView, NotificationAction, NotificationPayload, PayloadView, SendResult,
    SeverityLevel,
};
use vstd::prelude::*;

verus! {

/// The message of the error for a payload without a title.
pub const TITLE_REQUIRED: &'static str = "Notification title is required";

/// The message of the error for a payload without a title.
pub open spec fn title_required() -> Seq<char> {
    TITLE_REQUIRED@
}

/// What a builder holds, with every text as a sequence of characters and
/// every collection as a mathematical one.
pub struct BuilderView {
    pub event_type: Seq<char>,
    pub title: Option<Seq<char>>,
    pub message: Option<Seq<char>>,
    pub severity: SeverityLevel,
    pub metadata: Map<Seq<char>, serde_json::Value>,
    pub actions: Seq<ActionView>,
    pub user_id: Option<Seq<char>>,
    pub group_key: Option<Seq<char>>,
    pub deduplication_key: Option<Seq<char>>,
    pub expires_at: Option<Timestamp>,
}

/// The builder for the event `event_type` on which nothing was set:
/// severity `Info`, no title yet, and nothing else.
pub open spec fn fresh_builder(event_type: Seq<char>) -> BuilderView {
    BuilderView {
        event_type,
        title: None,
        message: None,
        severity: SeverityLevel::Info,
        metadata: Map::empty(),
        actions: Seq::empty(),
        user_id: None,
        group_key: None,
        deduplication_key: None,
        expires_at: None,
    }
}

/// The payload that a builder stands for, if it stands for one: it does
/// where a title was set and is not empty. Metadata and actions are left
/// out of the payload where there are none.
pub open spec fn built(builder: BuilderView) -> Option<PayloadView> {
    match builder.title {
        Some(title) if title.len() > 0 => Some(
            PayloadView {
                event_type: builder.event_type,
                title,
                message: builder.message,
                severity: Some(builder.severity),
                metadata: if builder.metadata == Map::<Seq<char>, serde_json::Value>::empty() {
                    None
                } else {
                    Some(builder.metadata)
                },
                actions: if builder.actions.len() == 0 {
                    None
                } else {
                    Some(builder.actions)
                },
                user_id: builder.user_id,
                group_key: builder.group_key,
                deduplication_key: builder.deduplication_key,
                expires_at: builder.expires_at,
            },
        ),
        _ => None,
    }
}

/// The builder with its expiry set to `at`, or left as it was where there
/// is no such point in time.
pub open spec fn expiring(builder: BuilderView, at: Option<Timestamp>) -> BuilderView {
    match at {
        Some(time) => BuilderView { expires_at: Some(time), ..builder },
        None => builder,
    }
}

/// The builder with its expiry set to the unsigned `span` after `now`. A
/// span too long to be held as a signed one counts as no span at all.
pub open spec fn expiring_after_std(
    builder: BuilderView,
    now: Timestamp,
    span: std::time::Duration,
) -> BuilderView {
    match signed_span(span) {
        Some(delta) => expiring(builder, shifted(now, delta)),
        None => BuilderView { expires_at: Some(now), ..builder },
    }
}

/// What is to be done with a finished builder.
#[derive(Debug)]
pub enum Dispatch {
    /// The payload is valid: one attempt to deliver it is to be made.
    Attempt(NotificationPayload),
    /// The payload is not valid: no attempt is made, and this is the result.
    Refused(SendResult),
}

/// A payload in the making. Each method sets one part and leaves the rest.
#[derive(Debug)]
pub struct EventBuilder {
    event_type: String,
    title: Option<String>,
    message: Option<String>,
    severity: SeverityLevel,
    metadata: Metadata,
    actions: Vec<NotificationAction>,
    user_id: Option<String>,
    group_key: Option<String>,
    deduplication_key: Option<String>,
    expires_at: Option<Timestamp>,
}

impl View for EventBuilder {
    type V = BuilderView;

    closed spec fn view(&self) -> BuilderView {
        BuilderView {
            event_type: self.event_type@,
            title: self.title.deep_view(),
            message: self.message.deep_view(),
            severity: self.severity,
            metadata: self.metadata@,
            actions: self.actions.deep_view(),
            user_id: self.user_id.deep_view(),
            group_key: self.group_key.deep_view(),
            deduplication_key: self.deduplication_key.deep_view(),
            expires_at: self.expires_at,
        }
    }
}

impl EventBuilder {
    /// A builder for the event `event_type` with nothing set.
    pub fn new(event_type: &str) -> (r: EventBuilder)
        ensures
            r@ == fresh_builder(event_type@),
    {
        let actions: Vec<NotificationAction> = Vec::new();
        assert(actions.deep_view() =~= Seq::<ActionView>::empty());
        EventBuilder {
            event_type: event_type.to_owned(),
            title: None,
            message: None,
            severity: SeverityLevel::Info,
            metadata: Metadata::new(),
            actions,
            user_id: None,
            group_key: None,
            deduplication_key: None,
            expires_at: None,
        }
    }

    /// Sets the title.
    pub fn with_title(self, title: &str) -> (r: EventBuilder)
        ensures
            r@ == (BuilderView { title: Some(title@), ..self@ }),
    {
        let mut builder = self;
        builder.title = Some(title.to_owned());
        builder
    }

    /// Sets the message.
    pub fn with_message(self, message: &str) -> (r: EventBuilder)
        ensures
            r@ == (BuilderView { message: Some(message@), ..self@ }),
    {
        let mut builder = self;
        builder.message = Some(message.to_owned());
        builder
    }

    /// Sets the severity.
    pub fn with_severity(self, severity: SeverityLevel) -> (r: EventBuilder)
        ensures
            r@ == (BuilderView { severity, ..self@ }),
    {
        let mut builder = self;
        builder.severity = severity;
        builder
    }

    /// Stores `value` in the metadata under `key`, in place of what was
    /// stored there before.
    pub fn with_metadata(self, key: &str, value: serde_json::Value) -> (r: EventBuilder)
        ensures
            r@ == (BuilderView { metadata: self@.metadata.insert(key@, value), ..self@ }),
    {
        let mut builder = self;
        builder.metadata.insert(key.to_owned(), value);
        builder
    }

    /// Adds `action` after the actions that are there.
    pub fn with_action(self, action: NotificationAction) -> (r: EventBuilder)
        ensures
            r@ == (BuilderView { actions: self@.actions.push(action@), ..self@ }),
    {
        let mut builder = self;
        let ghost before = builder.actions.deep_view();
        builder.actions.push(action);
        assert(builder.actions.deep_view() =~= before.push(action@));
        builder
    }

    /// Adds an action that opens `url`.
    pub fn with_url_action(self, label: &str, url: &str) -> (r: EventBuilder)
        ensures
            r@ == (BuilderView {
                actions: self@.actions.push(
                    ActionView {
                        label: label@,
                        url: Some(url@),
                        action: None,
                        style: Some(crate::types::default_style()),
                    },
                ),
                ..self@
            }),
    {
        self.with_action(NotificationAction::with_url(label, url))
    }

    /// Adds an action that runs the handler called `handler`.
    pub fn with_handler_action(self, label: &str, handler: &str) -> (r: EventBuilder)
        ensures
            r@ == (BuilderView {
                actions: self@.actions.push(
                    ActionView {
                        label: label@,
                        url: None,
                        action: Some(handler@),
                        style: Some(crate::types::default_style()),
                    },
                ),
                ..self@
            }),
    {
        self.with_action(NotificationAction::with_handler(label, handler))
    }

    /// Sets the user for whom the notification is meant.
    pub fn for_user(self, user_id: &str) -> (r: EventBuilder)
        ensures
            r@ == (BuilderView { user_id: Some(user_id@), ..self@ }),
    {
        let mut builder = self;
        builder.user_id = Some(user_id.to_owned());
        builder
    }

    /// Sets the key under which related notifications are grouped.
    pub fn with_group_key(self, group_key: &str) -> (r: EventBuilder)
        ensures
            r@ == (BuilderView { group_key: Some(group_key@), ..self@ }),
    {
        let mut builder = self;
        builder.group_key = Some(group_key.to_owned());
        builder
    }

    /// Sets the key by which the service tells repeated notifications.
    pub fn with_deduplication_key(self, key: &str) -> (r: EventBuilder)
        ensures
            r@ == (BuilderView { deduplication_key: Some(key@), ..self@ }),
    {
        let mut builder = self;
        builder.deduplication_key = Some(key.to_owned());
        builder
    }

    /// Sets the expiry to the point in time `time`.
    pub fn expires_at(self, time: Timestamp) -> (r: EventBuilder)
        ensures
            r@ == (BuilderView { expires_at: Some(time), ..self@ }),
    {
        let mut builder = self;
        builder.expires_at = Some(time);
        builder
    }

    /// Sets the expiry to `span` after `now`. Where the calendar has no
    /// such point in time, the builder is left as it was.
    pub fn expires_after(self, now: Timestamp, span: chrono::TimeDelta) -> (r: EventBuilder)
        ensures
            r@ == expiring(self@, shifted(now, span)),
    {
        match shift(now, span) {
            Some(time) => self.expires_at(time),
            None => self,
        }
    }

    /// Sets the expiry to the unsigned `span` after `now`. A span too long
    /// to be held as a signed one counts as no span at all.
    pub fn expires_after_std(self, now: Timestamp, span: std::time::Duration) -> (r: EventBuilder)
        ensures
            r@ == expiring_after_std(self@, now, span),
    {
        match to_signed_span(span) {
            Ok(delta) => self.expires_after(now, delta),
            Err(_) => self.expires_at(now),
        }
    }

    /// Sets the expiry to `span` from now, by the clock of this machine.
    pub fn expires_in(self, span: chrono::TimeDelta) -> (r: EventBuilder)
        ensures
            exists|now: Timestamp| r@ == expiring(self@, shifted(now, span)),
    {
        let at = now();
        self.expires_after(at, span)
    }

    /// Sets the expiry to the unsigned `span` from now, by the clock of this
    /// machine.
    pub fn expires_in_std(self, span: std::time::Duration) -> (r: EventBuilder)
        ensures
            exists|now: Timestamp| r@ == expiring_after_std(self@, now, span),
    {
        let at = now();
        self.expires_after_std(at, span)
    }

    /// The payload that the builder stands for, or an error where no title
    /// was set or the title is empty.
    pub fn build(self) -> (r: Result<NotificationPayload, &'static str>)
        ensures
            r is Ok <==> built(self@) is Some,
            r matches Ok(payload) ==> Some(payload@) == built(self@),
            r matches Err(message) ==> message@ == title_required(),
    {
        let title = match self.title {
            Some(title) => title,
            None => {
                return Err(TITLE_REQUIRED);
            },
        };
        if title.as_str().is_empty() {
            return Err(TITLE_REQUIRED);
        }
        Ok(
            NotificationPayload {
                event_type: self.event_type,
                title,
                message: self.message,
                severity: Some(self.severity),
                metadata: if self.metadata.is_empty() {
                    None
                } else {
                    Some(self.metadata)
                },
                actions: if self.actions.len() == 0 {
                    None
                } else {
                    Some(self.actions)
                },
                user_id: self.user_id,
                group_key: self.group_key,
                deduplication_key: self.deduplication_key,
                expires_at: self.expires_at,
            },
        )
    }

    /// What is to be done with the builder: one attempt to deliver its
    /// payload where it stands for one, and else no attempt at all but a
    /// failure that names the missing title.
    pub fn send(self) -> (r: Dispatch)
        ensures
            match built(self@) {
                Some(payload) => r matches Dispatch::Attempt(attempt) && attempt@ == payload,
                None => r matches Dispatch::Refused(result) && result@ == failure_result(
                    title_required(),
                ),
            },
    {
        match self.build() {
            Ok(payload) => Dispatch::Attempt(payload),
            Err(message) => Dispatch::Refused(SendResult::failure(message)),
        }
    }
}

} // verus!
