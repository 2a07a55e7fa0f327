//! The delivery coordinator: what a client does with the outcome of each
//! delivery attempt, and how it drains its backlog once the service can be
//! reached again.
//!
//! The client never talks to the service itself. Whoever holds the client
//! makes each attempt and hands its outcome in; the client decides what
//! follows from it.

use crate::builder::EventBuilder;
use crate::config::{api_key_required, NotifyOptions, OptionsView, API_KEY_REQUIRED};
use crate::queue::{keep_newest, restored, BacklogView, OfflineQueue};
use crate::types::{
    queued_result, ConnectionState, NotificationPayload, PayloadView, SendResult, SendResultView,
};
use vstd::prelude::*;

verus! {

/// What a client is, as far as delivery goes: its backlog, if it keeps one,
/// whether it takes the service to be reachable, and the connection state
/// that it shows.
pub struct ClientView {
    pub queue: Option<BacklogView>,
    pub is_online: bool,
    pub connection_state: ConnectionState,
}

/// `items` without the item at `index`; all of `items` where `index` lies
/// beyond the end.
pub open spec fn without<T>(items: Seq<T>, index: int) -> Seq<T> {
    if 0 <= index < items.len() {
        items.remove(index)
    } else {
        items
    }
}

/// The client after one delivery attempt for `payload` ended as `attempt`
/// says. A delivered payload changes nothing. A failed one goes into the
/// backlog and marks the service as out of reach; without a backlog it
/// changes nothing either.
pub open spec fn after_send(
    client: ClientView,
    payload: PayloadView,
    attempt: SendResultView,
) -> ClientView {
    match client.queue {
        Some(backlog) if !attempt.success => ClientView {
            queue: Some(
                BacklogView {
                    items: keep_newest(backlog.items.push(payload), backlog.limit),
                    ..backlog
                },
            ),
            is_online: false,
            ..client
        },
        _ => client,
    }
}

/// What the caller is told after a delivery attempt ended as `attempt` says:
/// the attempt's own result, but for a failure that went into the backlog,
/// which is reported as queued for the reason of the failure.
pub open spec fn send_outcome(client: ClientView, attempt: SendResultView) -> SendResultView {
    if client.queue is Some && !attempt.success {
        queued_result(
            match attempt.error {
                Some(reason) => reason,
                None => Seq::empty(),
            },
        )
    } else {
        attempt
    }
}

/// The client that is made with `options`, given what was read back from
/// storage: online, disconnected, and with a backlog where the options ask
/// for one.
pub open spec fn started(options: OptionsView, stored: Option<Seq<PayloadView>>) -> ClientView {
    ClientView {
        queue: if options.enable_offline_queue {
            Some(
                BacklogView {
                    items: restored(stored, options.max_offline_queue_size as nat),
                    limit: options.max_offline_queue_size as nat,
                    debug: options.debug,
                },
            )
        } else {
            None
        },
        is_online: true,
        connection_state: ConnectionState::Disconnected,
    }
}

/// Whether the backlog of a client, if it keeps one, holds no more than it
/// has room for.
pub open spec fn within_limit(client: ClientView) -> bool {
    client.queue matches Some(backlog) ==> backlog.items.len() <= backlog.limit
}

/// The backlog never outgrows its room: a client starts with a backlog
/// within its limit, and no delivery attempt and no step of a flush takes
/// it beyond.
pub proof fn lemma_backlog_stays_within_limit(
    client: ClientView,
    payload: PayloadView,
    attempt: SendResultView,
    flush: FlushView,
    answer: bool,
)
    requires
        within_limit(client),
    ensures
        within_limit(after_send(client, payload, attempt)),
        within_limit(after_probe(client, flush, answer).0),
        within_limit(after_attempt(client, flush, answer).0),
{
}

/// A client starts with a backlog within its limit, whatever was stored.
pub proof fn lemma_starts_within_limit(options: OptionsView, stored: Option<Seq<PayloadView>>)
    ensures
        within_limit(started(options, stored)),
{
}

/// A delivered payload leaves the client as it was, backlog and online flag
/// included, and the result of the attempt is what the caller is told.
pub proof fn lemma_delivered_changes_nothing(
    client: ClientView,
    payload: PayloadView,
    attempt: SendResultView,
)
    requires
        attempt.success,
    ensures
        after_send(client, payload, attempt) == client,
        send_outcome(client, attempt) == attempt,
{
}

/// A failed delivery with a backlog in place is reported as queued, for the
/// reason of the failure, and marks the service as out of reach. The
/// payload is then the newest of the backlog, which has grown by one where
/// it had room left.
pub proof fn lemma_failure_is_queued(
    client: ClientView,
    payload: PayloadView,
    attempt: SendResultView,
)
    requires
        !attempt.success,
        client.queue is Some,
    ensures
        send_outcome(client, attempt).queued,
        !send_outcome(client, attempt).success,
        send_outcome(client, attempt).error is Some,
        attempt.error is Some ==> send_outcome(client, attempt).error == attempt.error,
        !after_send(client, payload, attempt).is_online,
        after_send(client, payload, attempt).queue is Some,
        after_send(client, payload, attempt).connection_state == client.connection_state,
        client.queue.unwrap().items.len() < client.queue.unwrap().limit ==> after_send(
            client,
            payload,
            attempt,
        ).queue.unwrap().items == client.queue.unwrap().items.push(payload),
        client.queue.unwrap().limit > 0 ==> after_send(
            client,
            payload,
            attempt,
        ).queue.unwrap().items.last() == payload,
{
}

/// A failed delivery without a backlog leaves the client as it was, and the
/// failure is what the caller is told.
pub proof fn lemma_failure_without_backlog(
    client: ClientView,
    payload: PayloadView,
    attempt: SendResultView,
)
    requires
        client.queue is None,
    ensures
        after_send(client, payload, attempt) == client,
        send_outcome(client, attempt) == attempt,
{
}

/// Where a flush stands.
#[derive(Debug, Clone, Copy, PartialEq, Eq, Structural)]
pub enum FlushStage {
    /// The flush waits to hear whether the service can be reached.
    Probing,
    /// The flush walks its snapshot of the backlog, newest payload first.
    Sweeping,
    /// The flush is over.
    Finished,
}

/// What a flush is: its stage, the backlog as it was when the sweep began,
/// and how many of its payloads, counted from the oldest, are still to try.
pub struct FlushView {
    pub stage: FlushStage,
    pub snapshot: Seq<PayloadView>,
    pub remaining: nat,
}

/// The payload that a flush wants delivered next, if any: the newest of
/// those that it has not tried.
pub open spec fn pending(flush: FlushView) -> Option<PayloadView> {
    if flush.stage == FlushStage::Sweeping && 0 < flush.remaining <= flush.snapshot.len() {
        Some(flush.snapshot[flush.remaining - 1])
    } else {
        None
    }
}

/// The flush that a client begins: it asks for a probe where there is a
/// backlog with something in it, and is over at once where there is not.
pub open spec fn flush_started(client: ClientView) -> FlushView {
    FlushView {
        stage: match client.queue {
            Some(backlog) if backlog.items.len() > 0 => FlushStage::Probing,
            _ => FlushStage::Finished,
        },
        snapshot: Seq::empty(),
        remaining: 0,
    }
}

/// The items of a client's backlog; none where it keeps no backlog.
pub open spec fn backlog_items(client: ClientView) -> Seq<PayloadView> {
    match client.queue {
        Some(backlog) => backlog.items,
        None => Seq::empty(),
    }
}

/// The client and the flush after the probe that the flush asked for. An
/// unreachable service ends the flush and leaves the client as it was. A
/// reachable one marks the client as online and starts the sweep over the
/// backlog as it is now. A flush that asked for no probe is left alone.
pub open spec fn after_probe(client: ClientView, flush: FlushView, reachable: bool) -> (
    ClientView,
    FlushView,
) {
    if flush.stage != FlushStage::Probing {
        (client, flush)
    } else if !reachable {
        (client, FlushView { stage: FlushStage::Finished, ..flush })
    } else {
        let snapshot = backlog_items(client);
        (
            ClientView { is_online: true, ..client },
            FlushView {
                stage: if snapshot.len() > 0 {
                    FlushStage::Sweeping
                } else {
                    FlushStage::Finished
                },
                snapshot,
                remaining: snapshot.len(),
            },
        )
    }
}

/// The client and the flush after the attempt to deliver the pending
/// payload. A delivered payload leaves the backlog, by the place it had in
/// the snapshot, and the sweep goes on with the next older one. A failure
/// ends the flush at once and leaves the backlog as it is. A flush with
/// nothing pending is left alone.
pub open spec fn after_attempt(client: ClientView, flush: FlushView, delivered: bool) -> (
    ClientView,
    FlushView,
) {
    if pending(flush) is None {
        (client, flush)
    } else if !delivered {
        (client, FlushView { stage: FlushStage::Finished, ..flush })
    } else {
        let index = flush.remaining - 1;
        (
            ClientView {
                queue: match client.queue {
                    Some(backlog) => Some(
                        BacklogView { items: without(backlog.items, index), ..backlog },
                    ),
                    None => None,
                },
                ..client
            },
            FlushView {
                stage: if index > 0 {
                    FlushStage::Sweeping
                } else {
                    FlushStage::Finished
                },
                remaining: index as nat,
                ..flush
            },
        )
    }
}

/// One flush in progress. It is begun by `NotifyClient::flush` and moved on
/// by `NotifyClient::flush_probed` and `NotifyClient::flush_attempted`.
#[derive(Debug)]
pub struct Flush {
    stage: FlushStage,
    snapshot: Vec<NotificationPayload>,
    remaining: usize,
}

impl View for Flush {
    type V = FlushView;

    closed spec fn view(&self) -> FlushView {
        FlushView {
            stage: self.stage,
            snapshot: self.snapshot.deep_view(),
            remaining: self.remaining as nat,
        }
    }
}

impl Flush {
    /// Whether the flush waits to hear whether the service can be reached.
    pub fn needs_probe(&self) -> (r: bool)
        ensures
            r == (self@.stage == FlushStage::Probing),
    {
        self.stage == FlushStage::Probing
    }

    /// The payload to deliver next, if the flush wants one delivered.
    pub fn next(&self) -> (r: Option<&NotificationPayload>)
        ensures
            r.deep_view() == pending(self@),
    {
        if self.stage == FlushStage::Sweeping && 0 < self.remaining && self.remaining
            <= self.snapshot.len() {
            Some(&self.snapshot[self.remaining - 1])
        } else {
            None
        }
    }

    /// Whether the flush is over: it neither waits for a probe nor wants a
    /// payload delivered.
    pub fn is_finished(&self) -> (r: bool)
        ensures
            r == (self@.stage != FlushStage::Probing && pending(self@) is None),
    {
        !self.needs_probe() && self.next().is_none()
    }
}

/// A client of the notification service.
#[derive(Debug)]
pub struct NotifyClient {
    options: NotifyOptions,
    queue: Option<OfflineQueue>,
    is_online: bool,
    connection_state: ConnectionState,
}

impl View for NotifyClient {
    type V = ClientView;

    closed spec fn view(&self) -> ClientView {
        ClientView {
            queue: match self.queue {
                Some(queue) => Some(queue.backlog()),
                None => None,
            },
            is_online: self.is_online,
            connection_state: self.connection_state,
        }
    }
}

impl NotifyClient {
    /// The options that the client was made with.
    pub closed spec fn spec_options(&self) -> OptionsView {
        self.options@
    }

    /// A client with the given options, or an error where the API key is
    /// empty. The client starts online and disconnected. Where the options
    /// ask for a backlog it has one, with room as the options say, which
    /// starts with what was read back from storage; `stored` is `None` where
    /// the stored copy was missing or could not be read.
    pub fn new(options: NotifyOptions, stored: Option<Vec<NotificationPayload>>) -> (r: Result<
        NotifyClient,
        &'static str,
    >)
        ensures
            r is Ok <==> options@.api_key.len() > 0,
            r matches Err(message) ==> message@ == api_key_required(),
            r matches Ok(client) ==> {
                &&& client.spec_options() == options@
                &&& client@ == started(options@, stored.deep_view())
            },
    {
        if options.api_key.as_str().is_empty() {
            return Err(API_KEY_REQUIRED);
        }
        let queue = if options.enable_offline_queue {
            Some(OfflineQueue::new(options.max_offline_queue_size, options.debug, stored))
        } else {
            None
        };
        Ok(
            NotifyClient {
                options,
                queue,
                is_online: true,
                connection_state: ConnectionState::Disconnected,
            },
        )
    }

    /// The options that the client was made with.
    pub fn options(&self) -> (r: &NotifyOptions)
        ensures
            r@ == self.spec_options(),
    {
        &self.options
    }

    /// The backlog, if the client keeps one.
    pub fn queue(&self) -> (r: Option<&OfflineQueue>)
        ensures
            r is Some <==> self@.queue is Some,
            r matches Some(queue) ==> self@.queue == Some(queue.backlog()),
    {
        self.queue.as_ref()
    }

    /// Whether the client takes the service to be reachable.
    pub fn is_online(&self) -> (r: bool)
        ensures
            r == self@.is_online,
    {
        self.is_online
    }

    /// The connection state that the client shows.
    pub fn connection_state(&self) -> (r: ConnectionState)
        ensures
            r == self@.connection_state,
    {
        self.connection_state
    }

    /// Shows the client as connected. Nothing else changes.
    pub fn connect(&mut self)
        ensures
            final(self)@ == (ClientView {
                connection_state: ConnectionState::Connected,
                ..old(self)@
            }),
            final(self).spec_options() == old(self).spec_options(),
    {
        self.connection_state = ConnectionState::Connected;
    }

    /// Shows the client as disconnected. Nothing else changes.
    pub fn disconnect(&mut self)
        ensures
            final(self)@ == (ClientView {
                connection_state: ConnectionState::Disconnected,
                ..old(self)@
            }),
            final(self).spec_options() == old(self).spec_options(),
    {
        self.connection_state = ConnectionState::Disconnected;
    }

    /// A builder for a notification of the event `event_type`.
    pub fn event(&self, event_type: &str) -> (r: EventBuilder)
        ensures
            r@ == crate::builder::fresh_builder(event_type@),
    {
        EventBuilder::new(event_type)
    }

    /// Takes in the outcome of the one attempt to deliver `payload` and
    /// says what the caller is to be told. A delivered payload is reported
    /// as it came. A failed one goes into the backlog, marks the service as
    /// out of reach and is reported as queued, for the reason of the
    /// failure; without a backlog the failure is reported as it came.
    pub fn send_payload(&mut self, payload: &NotificationPayload, attempt: SendResult) -> (r:
        SendResult)
        ensures
            final(self)@ == after_send(old(self)@, payload@, attempt@),
            r@ == send_outcome(old(self)@, attempt@),
            within_limit(final(self)@),
            final(self).spec_options() == old(self).spec_options(),
    {
        proof {
            if let Some(queue) = &self.queue {
                use_type_invariant(queue);
            }
        }
        if attempt.success {
            return attempt;
        }
        match self.queue.take() {
            Some(queue) => {
                let mut queue = queue;
                queue.add(payload.clone());
                self.queue = Some(queue);
                self.is_online = false;
                match attempt.error {
                    Some(reason) => SendResult::queued(reason.as_str()),
                    None => SendResult::queued(String::new().as_str()),
                }
            },
            None => attempt,
        }
    }

    /// Begins a flush of the backlog. The flush asks for a probe of the
    /// service where the backlog holds something; without a backlog, or
    /// with an empty one, it is over at once.
    pub fn flush(&self) -> (r: Flush)
        ensures
            r@ == flush_started(self@),
    {
        let stage = match &self.queue {
            Some(queue) => if queue.is_empty() {
                FlushStage::Finished
            } else {
                FlushStage::Probing
            },
            None => FlushStage::Finished,
        };
        let snapshot: Vec<NotificationPayload> = Vec::new();
        assert(snapshot.deep_view() =~= Seq::<PayloadView>::empty());
        Flush { stage, snapshot, remaining: 0 }
    }

    /// Takes in the answer to the probe that `flush` asked for.
    pub fn flush_probed(&mut self, flush: &mut Flush, reachable: bool)
        ensures
            (final(self)@, final(flush)@) == after_probe(old(self)@, old(flush)@, reachable),
            within_limit(final(self)@),
            final(self).spec_options() == old(self).spec_options(),
    {
        proof {
            if let Some(queue) = &self.queue {
                use_type_invariant(queue);
            }
        }
        if flush.stage != FlushStage::Probing {
            return ;
        }
        if !reachable {
            flush.stage = FlushStage::Finished;
            return ;
        }
        self.is_online = true;
        let snapshot = match &self.queue {
            Some(queue) => queue.get_all(),
            None => {
                let none: Vec<NotificationPayload> = Vec::new();
                assert(none.deep_view() =~= Seq::<PayloadView>::empty());
                none
            },
        };
        flush.remaining = snapshot.len();
        flush.stage = if snapshot.len() > 0 {
            FlushStage::Sweeping
        } else {
            FlushStage::Finished
        };
        flush.snapshot = snapshot;
    }

    /// Takes in the outcome of the attempt to deliver the payload that
    /// `flush` wanted delivered.
    pub fn flush_attempted(&mut self, flush: &mut Flush, attempt: &SendResult)
        ensures
            (final(self)@, final(flush)@) == after_attempt(
                old(self)@,
                old(flush)@,
                attempt.success,
            ),
            within_limit(final(self)@),
            final(self).spec_options() == old(self).spec_options(),
    {
        proof {
            if let Some(queue) = &self.queue {
                use_type_invariant(queue);
            }
        }
        if flush.next().is_none() {
            return ;
        }
        if !attempt.success {
            flush.stage = FlushStage::Finished;
            return ;
        }
        let index = flush.remaining - 1;
        match self.queue.take() {
            Some(queue) => {
                let mut queue = queue;
                queue.remove(index);
                self.queue = Some(queue);
            },
            None => {},
        }
        flush.remaining = index;
        if index == 0 {
            flush.stage = FlushStage::Finished;
        }
    }
}

} // verus!
