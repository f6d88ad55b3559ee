//! Per-vCPU notification priority queue with a transactional pending table.
//!
//! Confirmed notifications pop in priority order, ties broken by earlier
//! timestamp.  The transactional half supports two-phase commit: an entry
//! pushed as pending is invisible to `pop` until it is confirmed, and can be
//! rolled back instead when the underlying architectural injection fails.

use vstd::prelude::*;
use vstd::multiset::Multiset;
use vstd::seq_lib::group_to_multiset_ensures;

use crate::base::{DeviceEvent, IrqType};
use crate::wrapper::DeviceId;

verus! {

/// Identifier of a pending (uncommitted) queue entry.
pub type EntryId = u64;

/// A pending notification in the priority queue.
#[derive(Debug, Clone, Copy, PartialEq, Eq, Structural)]
pub struct PendingNotification {
    /// The IRQ number to inject, for interrupt-based notifications.
    pub irq: u32,
    /// Notification priority; higher pops first.
    pub priority: u8,
    /// The device that triggered this notification.
    pub device_id: DeviceId,
    /// Timestamp drawn from the shared monotonic counter at injection time.
    pub timestamp: u64,
    /// The event that triggered this notification.
    pub event: DeviceEvent,
}

/// Queue ordering: `a` may pop no later than `b`.
///
/// Higher priority pops first; on equal priority the older (smaller)
/// timestamp pops first.
pub open spec fn pops_before_eq(a: PendingNotification, b: PendingNotification) -> bool {
    a.priority > b.priority || (a.priority == b.priority && a.timestamp <= b.timestamp)
}

impl PendingNotification {
    /// Creates a pending notification for the device's primary interrupt.
    pub fn new(irq: u32, priority: u8, device_id: DeviceId, timestamp: u64) -> (r: Self)
        ensures
            r == (PendingNotification {
                irq,
                priority,
                device_id,
                timestamp,
                event: DeviceEvent::Irq(IrqType::Primary),
            }),
    {
        Self { irq, priority, device_id, timestamp, event: DeviceEvent::Irq(IrqType::Primary) }
    }

    /// Creates a pending notification with a specific event.
    pub fn with_event(
        irq: u32,
        priority: u8,
        device_id: DeviceId,
        timestamp: u64,
        event: DeviceEvent,
    ) -> (r: Self)
        ensures
            r == (PendingNotification { irq, priority, device_id, timestamp, event }),
    {
        Self { irq, priority, device_id, timestamp, event }
    }

    /// Tests whether this notification pops no later than another.
    pub fn pops_before(&self, other: &Self) -> (r: bool)
        ensures
            r == pops_before_eq(*self, *other),
    {
        self.priority > other.priority
            || (self.priority == other.priority && self.timestamp <= other.timestamp)
    }
}

impl PartialOrd for PendingNotification {
    /// Notifications order by priority; on equal priority the one with the
    /// earlier timestamp is the greater, so that a max-queue pops it first.
    fn partial_cmp(&self, other: &Self) -> (r: Option<core::cmp::Ordering>) {
        if self.priority < other.priority {
            Some(core::cmp::Ordering::Less)
        } else if self.priority > other.priority {
            Some(core::cmp::Ordering::Greater)
        } else if self.timestamp > other.timestamp {
            Some(core::cmp::Ordering::Less)
        } else if self.timestamp < other.timestamp {
            Some(core::cmp::Ordering::Greater)
        } else {
            Some(core::cmp::Ordering::Equal)
        }
    }
}

impl vstd::std_specs::cmp::PartialOrdSpecImpl for PendingNotification {
    open spec fn obeys_partial_cmp_spec() -> bool {
        true
    }

    open spec fn partial_cmp_spec(&self, other: &Self) -> Option<core::cmp::Ordering> {
        if self.priority < other.priority {
            Some(core::cmp::Ordering::Less)
        } else if self.priority > other.priority {
            Some(core::cmp::Ordering::Greater)
        } else if self.timestamp > other.timestamp {
            Some(core::cmp::Ordering::Less)
        } else if self.timestamp < other.timestamp {
            Some(core::cmp::Ordering::Greater)
        } else {
            Some(core::cmp::Ordering::Equal)
        }
    }
}

/// Whether all keys in a pending-entry list are distinct.
pub open spec fn unique_keys(s: Seq<(EntryId, PendingNotification)>) -> bool {
    forall|i: int, j: int| 0 <= i < j < s.len() ==> s[i].0 != s[j].0
}

/// The map from entry ids to entries represented by a pending-entry list.
pub open spec fn pairs_to_map(s: Seq<(EntryId, PendingNotification)>)
    -> Map<EntryId, PendingNotification>
    decreases s.len(),
{
    if s.len() == 0 {
        Map::empty()
    } else {
        pairs_to_map(s.drop_last()).insert(s.last().0, s.last().1)
    }
}

/// An id is in the represented map exactly when some list entry carries it,
/// and under unique keys it maps to that entry's notification.
proof fn lemma_pairs_to_map_membership(s: Seq<(EntryId, PendingNotification)>, k: EntryId)
    ensures
        pairs_to_map(s).dom().contains(k) <==> exists|i: int| 0 <= i < s.len() && s[i].0 == k,
        unique_keys(s) ==> forall|i: int| 0 <= i < s.len() && s[i].0 == k
            ==> pairs_to_map(s)[k] == s[i].1,
    decreases s.len(),
{
    if s.len() > 0 {
        lemma_pairs_to_map_membership(s.drop_last(), k);
        assert(forall|i: int| 0 <= i < s.len() - 1 ==> s.drop_last()[i] == s[i]);
        if pairs_to_map(s).dom().contains(k) {
            if s.last().0 != k {
                let i = choose|i: int| 0 <= i < s.drop_last().len() && s.drop_last()[i].0 == k;
                assert(s[i].0 == k);
            }
        }
    }
}

/// Removing a list entry keeps the remaining keys distinct.
proof fn lemma_unique_keys_remove(s: Seq<(EntryId, PendingNotification)>, i: int)
    requires
        unique_keys(s),
        0 <= i < s.len(),
    ensures
        unique_keys(s.remove(i)),
{
    assert forall|a: int, b: int| 0 <= a < b < s.remove(i).len()
        implies s.remove(i)[a].0 != s.remove(i)[b].0 by {
        let a2 = if a < i { a } else { a + 1 };
        let b2 = if b < i { b } else { b + 1 };
        assert(s.remove(i)[a] == s[a2]);
        assert(s.remove(i)[b] == s[b2]);
    }
}

/// Removing a list entry removes exactly its key from the represented map,
/// when keys are unique.
proof fn lemma_pairs_to_map_remove(s: Seq<(EntryId, PendingNotification)>, i: int)
    requires
        unique_keys(s),
        0 <= i < s.len(),
    ensures
        pairs_to_map(s.remove(i)) =~= pairs_to_map(s).remove(s[i].0),
    decreases s.len(),
{
    lemma_pairs_to_map_membership(s.drop_last(), s.last().0);
    if i == s.len() - 1 {
        assert(s.remove(i) =~= s.drop_last());
        assert(!pairs_to_map(s.drop_last()).dom().contains(s.last().0));
        assert(pairs_to_map(s.drop_last()).insert(s.last().0, s.last().1).remove(s.last().0)
            =~= pairs_to_map(s.drop_last()));
    } else {
        assert(forall|j: int, l: int| 0 <= j < l < s.drop_last().len()
            ==> s.drop_last()[j].0 != s.drop_last()[l].0);
        lemma_pairs_to_map_remove(s.drop_last(), i);
        assert(s.remove(i).drop_last() =~= s.drop_last().remove(i));
        assert(s.remove(i).last() == s.last());
        assert(pairs_to_map(s.remove(i))
            == pairs_to_map(s.drop_last().remove(i)).insert(s.last().0, s.last().1));
        assert(s[i].0 != s.last().0);
    }
}

/// Transactional notification queue supporting two-phase commit.
///
/// An entry pushed as pending is recorded only in the pending table; `confirm`
/// moves it into the priority queue and `rollback` discards it.  Exactly one
/// of the two must follow each `push_pending`; a second settle of the same
/// entry id is a no-op.
pub struct TransactionalNotificationQueue {
    confirmed: Vec<PendingNotification>,
    pending: Vec<(EntryId, PendingNotification)>,
    next_entry_id: u64,
}

impl TransactionalNotificationQueue {
    /// The confirmed notifications, as a multiset.
    pub closed spec fn confirmed_ms(self) -> Multiset<PendingNotification> {
        self.confirmed@.to_multiset()
    }

    /// The pending (uncommitted) entries, keyed by entry id.
    pub closed spec fn pending_map(self) -> Map<EntryId, PendingNotification> {
        pairs_to_map(self.pending@)
    }

    /// The number of pending (uncommitted) entries.
    pub closed spec fn pending_len(self) -> nat {
        self.pending@.len()
    }

    /// The next entry id to be handed out.
    pub closed spec fn spec_next_id(self) -> u64 {
        self.next_entry_id
    }

    /// Well-formedness: pending keys are distinct and below the id counter.
    pub closed spec fn wf(self) -> bool {
        unique_keys(self.pending@)
            && forall|i: int| 0 <= i < self.pending@.len()
                ==> self.pending@[i].0 < self.next_entry_id
    }

    /// Creates an empty queue.
    pub fn new() -> (r: Self)
        ensures
            r.wf(),
            r.confirmed_ms() =~= Multiset::<PendingNotification>::empty(),
            r.pending_map() =~= Map::<EntryId, PendingNotification>::empty(),
            r.pending_len() == 0,
            r.spec_next_id() == 0,
    {
        let r = Self { confirmed: Vec::new(), pending: Vec::new(), next_entry_id: 0 };
        proof {
            broadcast use group_to_multiset_ensures;
            assert(r.confirmed@.to_multiset().len() == 0);
            assert(r.confirmed@.to_multiset() =~= Multiset::<PendingNotification>::empty());
        }
        r
    }

    /// Adds a pending (uncommitted) entry and returns its fresh entry id.
    ///
    /// The entry is invisible to `pop` until confirmed.
    pub fn push_pending(&mut self, notification: PendingNotification) -> (id: EntryId)
        requires
            old(self).wf(),
            old(self).spec_next_id() < u64::MAX,
        ensures
            final(self).wf(),
            id == old(self).spec_next_id(),
            !old(self).pending_map().dom().contains(id),
            final(self).pending_map() == old(self).pending_map().insert(id, notification),
            final(self).pending_len() == old(self).pending_len() + 1,
            final(self).confirmed_ms() == old(self).confirmed_ms(),
            final(self).spec_next_id() == old(self).spec_next_id() + 1,
    {
        let id = self.next_entry_id;
        self.next_entry_id = self.next_entry_id + 1;
        self.pending.push((id, notification));
        proof {
            lemma_pairs_to_map_membership(old(self).pending@, id);
            assert(self.pending@.drop_last() =~= old(self).pending@);
        }
        id
    }

    /// Confirms a pending entry, moving it into the priority queue.
    ///
    /// Unknown entry ids are ignored, so a second settle of an id is a no-op.
    pub fn confirm(&mut self, entry_id: EntryId)
        requires
            old(self).wf(),
        ensures
            final(self).wf(),
            final(self).spec_next_id() == old(self).spec_next_id(),
            old(self).pending_map().dom().contains(entry_id) ==> {
                &&& final(self).pending_map() == old(self).pending_map().remove(entry_id)
                &&& final(self).pending_len() == old(self).pending_len() - 1
                &&& final(self).confirmed_ms()
                    == old(self).confirmed_ms().insert(old(self).pending_map()[entry_id])
            },
            !old(self).pending_map().dom().contains(entry_id) ==> {
                &&& final(self).pending_map() == old(self).pending_map()
                &&& final(self).pending_len() == old(self).pending_len()
                &&& final(self).confirmed_ms() == old(self).confirmed_ms()
            },
    {
        proof {
            lemma_pairs_to_map_membership(self.pending@, entry_id);
        }
        match self.find_pending(entry_id) {
            Some(i) => {
                proof {
                    lemma_pairs_to_map_remove(self.pending@, i as int);
                    lemma_unique_keys_remove(self.pending@, i as int);
                }
                let (_, notification) = self.pending.remove(i);
                self.confirmed.push(notification);
                proof {
                    broadcast use group_to_multiset_ensures;
                }
            }
            None => {}
        }
    }

    /// Finds the index of a pending entry by its id.
    fn find_pending(&self, entry_id: EntryId) -> (r: Option<usize>)
        ensures
            r is Some ==> r->Some_0 < self.pending@.len()
                && self.pending@[r->Some_0 as int].0 == entry_id,
            r is None ==> forall|j: int| 0 <= j < self.pending@.len()
                ==> self.pending@[j].0 != entry_id,
    {
        let n = self.pending.len();
        let mut i: usize = 0;
        while i < n
            invariant
                n == self.pending@.len(),
                i <= n,
                forall|j: int| 0 <= j < i ==> self.pending@[j].0 != entry_id,
            decreases n - i,
        {
            if self.pending[i].0 == entry_id {
                return Some(i);
            }
            i = i + 1;
        }
        None
    }

    /// Rolls back a pending entry, discarding it.
    ///
    /// Unknown entry ids are ignored, so a second settle of an id is a no-op.
    /// A rollback never adds to the confirmed queue.
    pub fn rollback(&mut self, entry_id: EntryId)
        requires
            old(self).wf(),
        ensures
            final(self).wf(),
            final(self).spec_next_id() == old(self).spec_next_id(),
            final(self).confirmed_ms() == old(self).confirmed_ms(),
            old(self).pending_map().dom().contains(entry_id) ==> {
                &&& final(self).pending_map() == old(self).pending_map().remove(entry_id)
                &&& final(self).pending_len() == old(self).pending_len() - 1
            },
            !old(self).pending_map().dom().contains(entry_id) ==> {
                &&& final(self).pending_map() == old(self).pending_map()
                &&& final(self).pending_len() == old(self).pending_len()
            },
    {
        proof {
            lemma_pairs_to_map_membership(self.pending@, entry_id);
        }
        match self.find_pending(entry_id) {
            Some(i) => {
                proof {
                    lemma_pairs_to_map_remove(self.pending@, i as int);
                    lemma_unique_keys_remove(self.pending@, i as int);
                }
                let _ = self.pending.remove(i);
            }
            None => {}
        }
    }

    /// Pushes a notification directly into the priority queue, bypassing the
    /// transactional pending table.
    pub fn push(&mut self, notification: PendingNotification)
        requires
            old(self).wf(),
        ensures
            final(self).wf(),
            final(self).confirmed_ms() == old(self).confirmed_ms().insert(notification),
            final(self).pending_map() == old(self).pending_map(),
            final(self).pending_len() == old(self).pending_len(),
            final(self).spec_next_id() == old(self).spec_next_id(),
    {
        self.confirmed.push(notification);
        proof {
            broadcast use group_to_multiset_ensures;
        }
    }

    /// Pops a confirmed notification of maximal priority; ties go to the
    /// earliest timestamp.
    ///
    /// Returns `None` exactly when no confirmed notification is queued.
    pub fn pop(&mut self) -> (r: Option<PendingNotification>)
        requires
            old(self).wf(),
        ensures
            final(self).wf(),
            final(self).pending_map() == old(self).pending_map(),
            final(self).pending_len() == old(self).pending_len(),
            final(self).spec_next_id() == old(self).spec_next_id(),
            old(self).confirmed_ms().len() == 0 ==> r is None
                && final(self).confirmed_ms() == old(self).confirmed_ms(),
            old(self).confirmed_ms().len() > 0 ==> r is Some && {
                let m = r->Some_0;
                &&& old(self).confirmed_ms().count(m) > 0
                &&& final(self).confirmed_ms() == old(self).confirmed_ms().remove(m)
                &&& forall|x: PendingNotification| final(self).confirmed_ms().count(x) > 0
                    ==> pops_before_eq(m, x)
            },
    {
        proof {
            broadcast use group_to_multiset_ensures;
        }
        let n = self.confirmed.len();
        if n == 0 {
            return None;
        }
        let mut best: usize = 0;
        let mut i: usize = 1;
        while i < n
            invariant
                n == self.confirmed@.len(),
                best < i <= n,
                *self == *old(self),
                forall|j: int| 0 <= j < i
                    ==> pops_before_eq(self.confirmed@[best as int], self.confirmed@[j]),
            decreases n - i,
        {
            let better = self.confirmed[i].pops_before(&self.confirmed[best]);
            let tie = self.confirmed[best].pops_before(&self.confirmed[i]);
            if better && !tie {
                best = i;
            }
            i = i + 1;
        }
        let m = self.confirmed.remove(best);
        proof {
            broadcast use group_to_multiset_ensures;
            assert(self.confirmed@ == old(self).confirmed@.remove(best as int));
            assert forall|x: PendingNotification| self.confirmed@.to_multiset().count(x) > 0
                implies pops_before_eq(m, x) by {
                assert(self.confirmed@.contains(x));
                let j = choose|j: int| 0 <= j < self.confirmed@.len() && self.confirmed@[j] == x;
                if j < best {
                    assert(old(self).confirmed@[j] == x);
                } else {
                    assert(old(self).confirmed@[j + 1] == x);
                }
            }
        }
        Some(m)
    }

    /// Peeks at the notification `pop` would return, without removing it.
    pub fn peek(&self) -> (r: Option<PendingNotification>)
        requires
            self.wf(),
        ensures
            self.confirmed_ms().len() == 0 ==> r is None,
            self.confirmed_ms().len() > 0 ==> r is Some && {
                let m = r->Some_0;
                &&& self.confirmed_ms().count(m) > 0
                &&& forall|x: PendingNotification| self.confirmed_ms().remove(m).count(x) > 0
                    ==> pops_before_eq(m, x)
            },
    {
        proof {
            broadcast use group_to_multiset_ensures;
        }
        let n = self.confirmed.len();
        if n == 0 {
            return None;
        }
        let mut best: usize = 0;
        let mut i: usize = 1;
        while i < n
            invariant
                n == self.confirmed@.len(),
                best < i <= n,
                forall|j: int| 0 <= j < i
                    ==> pops_before_eq(self.confirmed@[best as int], self.confirmed@[j]),
            decreases n - i,
        {
            let better = self.confirmed[i].pops_before(&self.confirmed[best]);
            let tie = self.confirmed[best].pops_before(&self.confirmed[i]);
            if better && !tie {
                best = i;
            }
            i = i + 1;
        }
        let m = self.confirmed[best];
        proof {
            broadcast use group_to_multiset_ensures;
            let s = self.confirmed@;
            assert forall|x: PendingNotification| s.to_multiset().remove(m).count(x) > 0
                implies pops_before_eq(m, x) by {
                assert(s.to_multiset().count(x) > 0);
                assert(s.contains(x));
                let j = choose|j: int| 0 <= j < s.len() && s[j] == x;
                assert(pops_before_eq(s[best as int], s[j]));
            }
        }
        Some(m)
    }

    /// The number of confirmed notifications.
    pub fn len(&self) -> (r: usize)
        ensures
            r == self.confirmed_ms().len(),
    {
        proof {
            broadcast use group_to_multiset_ensures;
        }
        self.confirmed.len()
    }

    /// Whether no confirmed notification is queued.
    pub fn is_empty(&self) -> (r: bool)
        ensures
            r == (self.confirmed_ms().len() == 0),
    {
        proof {
            broadcast use group_to_multiset_ensures;
        }
        self.confirmed.len() == 0
    }

    /// The number of pending (uncommitted) entries.
    pub fn pending_count(&self) -> (r: usize)
        ensures
            r == self.pending_len(),
    {
        self.pending.len()
    }

    /// Clears the confirmed notifications; pending entries stay.
    pub fn clear(&mut self)
        requires
            old(self).wf(),
        ensures
            final(self).wf(),
            final(self).confirmed_ms() =~= Multiset::<PendingNotification>::empty(),
            final(self).pending_map() == old(self).pending_map(),
            final(self).pending_len() == old(self).pending_len(),
            final(self).spec_next_id() == old(self).spec_next_id(),
    {
        self.confirmed.clear();
        proof {
            broadcast use group_to_multiset_ensures;
            assert(self.confirmed@.to_multiset().len() == 0);
        }
    }

    /// Clears the pending (uncommitted) entries; confirmed notifications
    /// stay.
    pub fn clear_pending(&mut self)
        requires
            old(self).wf(),
        ensures
            final(self).wf(),
            final(self).confirmed_ms() == old(self).confirmed_ms(),
            final(self).pending_map() =~= Map::<EntryId, PendingNotification>::empty(),
            final(self).pending_len() == 0,
            final(self).spec_next_id() == old(self).spec_next_id(),
    {
        self.pending.clear();
    }

    /// Clears both the confirmed notifications and the pending entries.
    pub fn clear_all(&mut self)
        requires
            old(self).wf(),
        ensures
            final(self).wf(),
            final(self).confirmed_ms() =~= Multiset::<PendingNotification>::empty(),
            final(self).pending_map() =~= Map::<EntryId, PendingNotification>::empty(),
            final(self).pending_len() == 0,
            final(self).spec_next_id() == old(self).spec_next_id(),
    {
        self.confirmed.clear();
        self.pending.clear();
        proof {
            broadcast use group_to_multiset_ensures;
            assert(self.confirmed@.to_multiset().len() == 0);
        }
    }
}

/// Law: pops come out in order.  When `m1` pops no later than everything
/// left in the queue, any `m2` popped afterwards has no higher priority, and
/// on equal priority no earlier timestamp.
pub proof fn lemma_pop_order(
    m1: PendingNotification,
    rest: Multiset<PendingNotification>,
    m2: PendingNotification,
)
    requires
        forall|x: PendingNotification| rest.count(x) > 0 ==> pops_before_eq(m1, x),
        rest.count(m2) > 0,
    ensures
        m1.priority >= m2.priority,
        m1.priority == m2.priority ==> m1.timestamp <= m2.timestamp,
{
    assert(rest.count(m2) > 0);
    assert(pops_before_eq(m1, m2));
}

/// Spec-level model of the transactional queue.
pub struct QueueModel {
    /// The confirmed notifications.
    pub confirmed: Multiset<PendingNotification>,
    /// The pending entries by id.
    pub pending: Map<EntryId, PendingNotification>,
}

/// The model effect of confirming an entry id.
pub open spec fn confirm_step(m: QueueModel, id: EntryId) -> QueueModel {
    if m.pending.dom().contains(id) {
        QueueModel { confirmed: m.confirmed.insert(m.pending[id]), pending: m.pending.remove(id) }
    } else {
        m
    }
}

/// The model effect of rolling back an entry id.
pub open spec fn rollback_step(m: QueueModel, id: EntryId) -> QueueModel {
    if m.pending.dom().contains(id) {
        QueueModel { confirmed: m.confirmed, pending: m.pending.remove(id) }
    } else {
        m
    }
}

/// Law: no ghost entries.  Each pending entry is settled at most once: after
/// a confirm or rollback of an id, any further confirm or rollback of the
/// same id changes nothing; and a rollback never adds to the confirmed
/// queue.
pub proof fn lemma_two_phase_commit(m: QueueModel, id: EntryId)
    ensures
        confirm_step(confirm_step(m, id), id) == confirm_step(m, id),
        rollback_step(confirm_step(m, id), id) == confirm_step(m, id),
        confirm_step(rollback_step(m, id), id) == rollback_step(m, id),
        rollback_step(rollback_step(m, id), id) == rollback_step(m, id),
        rollback_step(m, id).confirmed == m.confirmed,
{
}

} // verus!
