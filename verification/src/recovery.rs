//! A whole flush, from its first step to its last, and what it leaves of the
//! backlog.
//!
//! The steps themselves are those of the client. Here they are put in a row,
//! against a service that is described by which payloads it delivers, and
//! what comes out is proved.

use crate::client::{
    after_attempt, after_probe, flush_started, pending, ClientView, FlushStage, FlushView,
};
use crate::queue::BacklogView;
use crate::types::PayloadView;
use vstd::prelude::*;

verus! {

/// The client and the flush once the sweep has run its course against a
/// service that delivers exactly the payloads for which `delivers` holds:
/// each pending payload is attempted in turn until none is pending.
pub open spec fn swept(
    client: ClientView,
    flush: FlushView,
    delivers: spec_fn(PayloadView) -> bool,
) -> (ClientView, FlushView)
    decreases
            (if pending(flush) is Some {
                1nat
            } else {
                0nat
            }),
            flush.remaining,
{
    match pending(flush) {
        Some(payload) => {
            let next = after_attempt(client, flush, delivers(payload));
            swept(next.0, next.1, delivers)
        },
        None => (client, flush),
    }
}

/// The client after a whole flush: begun, probed with the answer
/// `reachable`, and swept against a service that delivers exactly the
/// payloads for which `delivers` holds.
pub open spec fn flushed(
    client: ClientView,
    reachable: bool,
    delivers: spec_fn(PayloadView) -> bool,
) -> ClientView {
    let probed = after_probe(client, flush_started(client), reachable);
    swept(probed.0, probed.1, delivers).0
}

/// A sweep that has `flush.remaining` payloads left to try, of which those
/// from `stop` on are delivered and the one before `stop` is not, leaves the
/// backlog with the `stop` oldest payloads of the snapshot.
proof fn lemma_sweep_stops(
    client: ClientView,
    flush: FlushView,
    delivers: spec_fn(PayloadView) -> bool,
    backlog: BacklogView,
    stop: nat,
)
    requires
        flush.remaining <= flush.snapshot.len(),
        flush.remaining > 0 ==> flush.stage == FlushStage::Sweeping,
        client.queue == Some(
            BacklogView { items: flush.snapshot.take(flush.remaining as int), ..backlog },
        ),
        stop <= flush.remaining,
        forall|j: int| stop <= j < flush.remaining ==> delivers(#[trigger] flush.snapshot[j]),
        stop > 0 ==> !delivers(flush.snapshot[stop - 1]),
    ensures
        swept(client, flush, delivers).0 == (ClientView {
            queue: Some(BacklogView { items: flush.snapshot.take(stop as int), ..backlog }),
            ..client
        }),
    decreases flush.remaining,
{
    if flush.remaining == 0 {
    } else if flush.remaining == stop {
        let next = after_attempt(client, flush, false);
        assert(pending(next.1) is None);
        assert(swept(next.0, next.1, delivers) == next);
    } else {
        let index = flush.remaining - 1;
        assert(delivers(flush.snapshot[index]));
        let next = after_attempt(client, flush, true);
        assert(flush.snapshot.take(flush.remaining as int).remove(index) =~= flush.snapshot.take(
            index,
        ));
        lemma_sweep_stops(next.0, next.1, delivers, backlog, stop);
    }
}

/// A flush against a service that cannot be reached changes nothing: the
/// backlog, the online flag and the connection state are what they were.
pub proof fn lemma_flush_unreachable(client: ClientView, delivers: spec_fn(PayloadView) -> bool)
    ensures
        flushed(client, false, delivers) == client,
{
    let probed = after_probe(client, flush_started(client), false);
    assert(pending(probed.1) is None);
}

/// A flush of a client without a backlog, or with an empty one, changes
/// nothing, whatever the service would do.
pub proof fn lemma_flush_nothing_queued(
    client: ClientView,
    reachable: bool,
    delivers: spec_fn(PayloadView) -> bool,
)
    requires
        client.queue matches Some(backlog) ==> backlog.items.len() == 0,
    ensures
        flushed(client, reachable, delivers) == client,
{
    let probed = after_probe(client, flush_started(client), reachable);
    assert(pending(probed.1) is None);
}

/// A flush against a reachable service walks the backlog from the newest
/// payload to the oldest and halts at the first that is not delivered. With
/// `stop` payloads up to and including that one, the backlog keeps exactly
/// its `stop` oldest payloads, in their order, and the client is online.
pub proof fn lemma_flush_halts_at_first_failure(
    client: ClientView,
    delivers: spec_fn(PayloadView) -> bool,
    stop: nat,
)
    requires
        client.queue is Some,
        client.queue.unwrap().items.len() > 0,
        stop <= client.queue.unwrap().items.len(),
        forall|j: int|
            stop <= j < client.queue.unwrap().items.len() ==> delivers(
                #[trigger] client.queue.unwrap().items[j],
            ),
        stop > 0 ==> !delivers(client.queue.unwrap().items[stop - 1]),
    ensures
        flushed(client, true, delivers) == (ClientView {
            queue: Some(
                BacklogView {
                    items: client.queue.unwrap().items.take(stop as int),
                    ..client.queue.unwrap()
                },
            ),
            is_online: true,
            ..client
        }),
{
    let backlog = client.queue.unwrap();
    let probed = after_probe(client, flush_started(client), true);
    assert(backlog.items.take(backlog.items.len() as int) =~= backlog.items);
    lemma_sweep_stops(probed.0, probed.1, delivers, backlog, stop);
}

/// A flush against a reachable service that delivers every payload of a
/// backlog that is not empty leaves the backlog empty and the client online.
pub proof fn lemma_flush_all_delivered(client: ClientView, delivers: spec_fn(PayloadView) -> bool)
    requires
        client.queue is Some,
        client.queue.unwrap().items.len() > 0,
        forall|j: int|
            0 <= j < client.queue.unwrap().items.len() ==> delivers(
                #[trigger] client.queue.unwrap().items[j],
            ),
    ensures
        flushed(client, true, delivers) == (ClientView {
            queue: Some(
                BacklogView { items: Seq::empty(), ..client.queue.unwrap() },
            ),
            is_online: true,
            ..client
        }),
{
    lemma_flush_halts_at_first_failure(client, delivers, 0);
    assert(client.queue.unwrap().items.take(0) =~= Seq::<PayloadView>::empty());
}

/// A flush against a reachable service that fails to deliver the newest
/// payload halts at once: the backlog keeps every payload, also the older
/// ones that the service would have delivered. The client is online all the
/// same.
pub proof fn lemma_flush_newest_fails(client: ClientView, delivers: spec_fn(PayloadView) -> bool)
    requires
        client.queue is Some,
        client.queue.unwrap().items.len() > 0,
        !delivers(client.queue.unwrap().items.last()),
    ensures
        flushed(client, true, delivers) == (ClientView { is_online: true, ..client }),
{
    let items = client.queue.unwrap().items;
    lemma_flush_halts_at_first_failure(client, delivers, items.len());
    assert(items.take(items.len() as int) =~= items);
}

} // verus!
