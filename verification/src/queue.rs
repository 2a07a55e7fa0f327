//! The offline backlog: a bounded first-in, first-out store of the payloads
//! that could not be delivered.

use crate::types::{NotificationPayload, PayloadView};
use vstd::prelude::*;

verus! {

/// The directory, under the user's home, in which the backlog is stored.
pub const STORAGE_DIRECTORY: &'static str = ".ironnotify";

/// The file, in that directory, that holds the stored backlog.
pub const STORAGE_FILE: &'static str = "offline_queue.json";

/// The newest `limit` items of `items`, oldest first; all of them where there
/// are no more than `limit`.
pub open spec fn keep_newest<T>(items: Seq<T>, limit: nat) -> Seq<T> {
    if items.len() <= limit {
        items
    } else {
        items.subrange(items.len() - limit, items.len() as int)
    }
}

/// What a backlog with room for `limit` items holds after `added` have been
/// put into it one by one, starting from `start`.
pub open spec fn after_adds<T>(start: Seq<T>, added: Seq<T>, limit: nat) -> Seq<T>
    decreases added.len(),
{
    if added.len() == 0 {
        start
    } else {
        after_adds(keep_newest(start.push(added[0]), limit), added.drop_first(), limit)
    }
}

/// What a backlog with room for `limit` items starts with, given what was
/// read back from storage: nothing where storage was missing or unreadable,
/// else the newest `limit` of the stored items.
pub open spec fn restored<T>(stored: Option<Seq<T>>, limit: nat) -> Seq<T> {
    match stored {
        Some(items) => keep_newest(items, limit),
        None => Seq::empty(),
    }
}

/// Putting items into a backlog one by one leaves the newest `limit` of what
/// was there and what was added, in the order in which they came.
pub proof fn lemma_adds_keep_newest<T>(start: Seq<T>, added: Seq<T>, limit: nat)
    requires
        start.len() <= limit,
    ensures
        after_adds(start, added, limit) == keep_newest(start + added, limit),
    decreases added.len(),
{
    if added.len() == 0 {
        assert(start + added =~= start);
    } else {
        let first = added[0];
        let rest = added.drop_first();
        let next = keep_newest(start.push(first), limit);
        lemma_adds_keep_newest(next, rest, limit);
        assert(start + added =~= start.push(first) + rest);
        lemma_keep_newest_twice(start.push(first), rest, limit);
    }
}

/// Once more items have been put into a backlog than it has room for, it
/// holds exactly the newest `limit` of them, oldest first, whatever it held
/// before.
pub proof fn lemma_overfull_keeps_newest<T>(start: Seq<T>, added: Seq<T>, limit: nat)
    requires
        start.len() <= limit,
        added.len() >= limit,
    ensures
        after_adds(start, added, limit) == added.subrange(added.len() - limit, added.len() as int),
        after_adds(start, added, limit).len() == limit,
{
    lemma_adds_keep_newest(start, added, limit);
    assert(keep_newest(start + added, limit) =~= added.subrange(
        added.len() - limit,
        added.len() as int,
    ));
}

/// A backlog that is written out and read back with the same limit is the
/// backlog that was written.
pub proof fn lemma_restore_round_trip<T>(held: Seq<T>, limit: nat)
    requires
        held.len() <= limit,
    ensures
        restored(Some(held), limit) == held,
{
}

/// Cutting to the newest `limit` before more items arrive changes nothing of
/// what is left after they have arrived.
proof fn lemma_keep_newest_twice<T>(items: Seq<T>, more: Seq<T>, limit: nat)
    ensures
        keep_newest(keep_newest(items, limit) + more, limit) == keep_newest(items + more, limit),
{
    if items.len() > limit {
        let short = keep_newest(items, limit) + more;
        assert(short.len() == limit + more.len());
        assert(keep_newest(short, limit) =~= keep_newest(items + more, limit));
    }
}

/// Cutting to the newest `limit` leaves no more than `limit` items, and
/// leaves a list alone that has no more.
pub proof fn lemma_keep_newest_bounded<T>(items: Seq<T>, limit: nat)
    ensures
        keep_newest(items, limit).len() <= limit,
        keep_newest(items, limit).len() <= items.len(),
        items.len() <= limit ==> keep_newest(items, limit) == items,
{
}

/// What a backlog is: its payloads, oldest first, the room it has, and
/// whether it was asked to report what it does.
pub struct BacklogView {
    pub items: Seq<PayloadView>,
    pub limit: nat,
    pub debug: bool,
}

/// A copy of a list of payloads.
pub(crate) fn clone_payloads(payloads: &Vec<NotificationPayload>) -> (r: Vec<NotificationPayload>)
    ensures
        r.deep_view() == payloads.deep_view(),
{
    let mut copy: Vec<NotificationPayload> = Vec::new();
    let mut i: usize = 0;
    while i < payloads.len()
        invariant
            i <= payloads@.len(),
            copy@.len() == i,
            forall|j: int| 0 <= j < i ==> (#[trigger] copy@[j])@ == payloads@[j]@,
        decreases payloads@.len() - i,
    {
        copy.push(payloads[i].clone());
        i += 1;
    }
    assert(copy.deep_view() =~= payloads.deep_view());
    copy
}

/// A bounded backlog of payloads, oldest first. It never holds more than
/// `max_size` payloads: where one more arrives, the oldest leaves.
#[derive(Debug)]
pub struct OfflineQueue {
    max_size: usize,
    debug: bool,
    items: Vec<NotificationPayload>,
}

impl View for OfflineQueue {
    type V = Seq<PayloadView>;

    closed spec fn view(&self) -> Seq<PayloadView> {
        self.items.deep_view()
    }
}

impl OfflineQueue {
    /// What holds of every backlog: it holds no more than it has room for.
    #[verifier::type_invariant]
    pub open spec fn well_formed(&self) -> bool {
        self@.len() <= self.max_size()
    }

    /// The number of payloads for which the backlog has room.
    pub closed spec fn max_size(&self) -> usize {
        self.max_size
    }

    /// Whether the backlog was asked to report what it does.
    pub closed spec fn debug(&self) -> bool {
        self.debug
    }

    /// The backlog as a whole: what it holds and what it was made with.
    pub open spec fn backlog(&self) -> BacklogView {
        BacklogView { items: self@, limit: self.max_size() as nat, debug: self.debug() }
    }

    /// A backlog with room for `max_size` payloads that starts with what was
    /// read back from storage. `stored` is `None` where the stored copy was
    /// missing or could not be read: the backlog then starts empty. Where
    /// more was stored than there is room for, the newest payloads stay.
    pub fn new(max_size: usize, debug: bool, stored: Option<Vec<NotificationPayload>>) -> (r:
        OfflineQueue)
        ensures
            r@ == restored(stored.deep_view(), max_size as nat),
            r@.len() <= max_size,
            r.max_size() == max_size,
            r.debug() == debug,
    {
        match stored {
            Some(payloads) => {
                let mut older = payloads;
                if older.len() > max_size {
                    let newest = older.split_off(older.len() - max_size);
                    assert(newest.deep_view() =~= keep_newest(payloads.deep_view(), max_size as nat));
                    OfflineQueue { max_size, debug, items: newest }
                } else {
                    OfflineQueue { max_size, debug, items: older }
                }
            },
            None => {
                let items: Vec<NotificationPayload> = Vec::new();
                assert(items.deep_view() =~= Seq::<PayloadView>::empty());
                OfflineQueue { max_size, debug, items }
            },
        }
    }

    /// The room that the backlog has.
    pub fn capacity(&self) -> (r: usize)
        ensures
            r == self.max_size(),
    {
        self.max_size
    }

    /// Whether the backlog was asked to report what it does.
    pub fn is_debug(&self) -> (r: bool)
        ensures
            r == self.debug(),
    {
        self.debug
    }

    /// Puts `payload` at the end of the backlog. Where the backlog is full,
    /// the oldest payload leaves first; a backlog without any room stays
    /// empty.
    pub fn add(&mut self, payload: NotificationPayload)
        ensures
            final(self)@ == keep_newest(old(self)@.push(payload@), old(self).max_size() as nat),
            final(self)@.len() <= final(self).max_size(),
            final(self).max_size() == old(self).max_size(),
            final(self).debug() == old(self).debug(),
    {
        proof {
            use_type_invariant(&*self);
        }
        let max_size = self.max_size;
        let debug = self.debug;
        let mut taken = OfflineQueue { max_size, debug, items: Vec::new() };
        core::mem::swap(self, &mut taken);
        let mut items = taken.items;
        let ghost before = items.deep_view();
        if max_size > 0 {
            if items.len() >= max_size {
                items.remove(0);
            }
            items.push(payload);
        }
        assert(items.deep_view() =~= keep_newest(before.push(payload@), max_size as nat));
        *self = OfflineQueue { max_size, debug, items };
    }

    /// A copy of the payloads in the backlog, oldest first.
    pub fn get_all(&self) -> (r: Vec<NotificationPayload>)
        ensures
            r.deep_view() == self@,
    {
        clone_payloads(&self.items)
    }

    /// Takes the payload at `index` out of the backlog. An `index` beyond
    /// the end changes nothing.
    pub fn remove(&mut self, index: usize)
        ensures
            final(self)@ == if index < old(self)@.len() {
                old(self)@.remove(index as int)
            } else {
                old(self)@
            },
            final(self)@.len() <= final(self).max_size(),
            final(self).max_size() == old(self).max_size(),
            final(self).debug() == old(self).debug(),
    {
        proof {
            use_type_invariant(&*self);
        }
        if index < self.items.len() {
            let max_size = self.max_size;
            let debug = self.debug;
            let mut taken = OfflineQueue { max_size, debug, items: Vec::new() };
            core::mem::swap(self, &mut taken);
            let mut items = taken.items;
            let ghost before = items.deep_view();
            items.remove(index);
            assert(items.deep_view() =~= before.remove(index as int));
            *self = OfflineQueue { max_size, debug, items };
        }
    }

    /// Empties the backlog.
    pub fn clear(&mut self)
        ensures
            final(self)@ == Seq::<PayloadView>::empty(),
            final(self).max_size() == old(self).max_size(),
            final(self).debug() == old(self).debug(),
    {
        let items: Vec<NotificationPayload> = Vec::new();
        assert(items.deep_view() =~= Seq::<PayloadView>::empty());
        *self = OfflineQueue { max_size: self.max_size, debug: self.debug, items };
    }

    /// The number of payloads in the backlog.
    pub fn size(&self) -> (r: usize)
        ensures
            r == self@.len(),
            r <= self.max_size(),
    {
        proof {
            use_type_invariant(self);
        }
        self.items.len()
    }

    /// Whether the backlog holds no payload.
    pub fn is_empty(&self) -> (r: bool)
        ensures
            r == (self@.len() == 0),
    {
        self.items.len() == 0
    }
}

} // verus!
