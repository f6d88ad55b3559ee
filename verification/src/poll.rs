//! Per-device poll flags for poll-method notifications.
//!
//! A device registered for polling owns a 32-bit flag word.  Raising an
//! event ORs the event's bit into the word; the vCPU loop checks and clears
//! the word in one step.  Operations on unregistered ids are safe no-ops.

use vstd::prelude::*;
use vstd::pervasive::VecAdditionalExecFns;

use crate::kv::{
    distinct_keys, lemma_distinct_keys_remove, lemma_list_to_map_membership,
    lemma_list_to_map_push, lemma_list_to_map_remove, lemma_list_to_map_update, list_to_map,
};
use crate::wrapper::DeviceId;

verus! {

/// Poll-flag table for all devices.
pub struct PollFlags {
    entries: Vec<(DeviceId, u32)>,
}

impl PollFlags {
    /// The flag words by device id.
    pub closed spec fn flags_map(self) -> Map<DeviceId, u32> {
        list_to_map(self.entries@)
    }

    /// The number of registered devices.
    pub closed spec fn spec_len(self) -> nat {
        self.entries@.len()
    }

    /// Well-formedness: each device id is registered at most once.
    pub closed spec fn wf(self) -> bool {
        distinct_keys(self.entries@)
    }

    /// Creates an empty poll-flag table.
    pub fn new() -> (r: Self)
        ensures
            r.wf(),
            r.flags_map() =~= Map::<DeviceId, u32>::empty(),
            r.spec_len() == 0,
    {
        Self { entries: Vec::new() }
    }

    /// Finds the table index of a device id.
    fn find(&self, device_id: DeviceId) -> (r: Option<usize>)
        ensures
            r is Some ==> r->Some_0 < self.entries@.len()
                && self.entries@[r->Some_0 as int].0 == device_id,
            r is None ==> forall|j: int| 0 <= j < self.entries@.len()
                ==> self.entries@[j].0 != device_id,
    {
        let n = self.entries.len();
        let mut i: usize = 0;
        while i < n
            invariant
                n == self.entries@.len(),
                i <= n,
                forall|j: int| 0 <= j < i ==> self.entries@[j].0 != device_id,
            decreases n - i,
        {
            if self.entries[i].0 == device_id {
                return Some(i);
            }
            i = i + 1;
        }
        None
    }

    /// Registers a device for polling with a cleared flag word.
    ///
    /// Re-registering a device resets its flag word to zero.
    pub fn register(&mut self, device_id: DeviceId)
        requires
            old(self).wf(),
        ensures
            final(self).wf(),
            final(self).flags_map() == old(self).flags_map().insert(device_id, 0u32),
            old(self).flags_map().dom().contains(device_id)
                ==> final(self).spec_len() == old(self).spec_len(),
            !old(self).flags_map().dom().contains(device_id)
                ==> final(self).spec_len() == old(self).spec_len() + 1,
    {
        proof {
            lemma_list_to_map_membership(self.entries@, device_id);
        }
        match self.find(device_id) {
            Some(i) => {
                proof {
                    lemma_list_to_map_update(self.entries@, i as int, 0u32);
                }
                self.entries.set(i, (device_id, 0));
            }
            None => {
                proof {
                    lemma_list_to_map_push(self.entries@, device_id, 0u32);
                }
                self.entries.push((device_id, 0));
            }
        }
    }

    /// Unregisters a device from polling.
    ///
    /// Unregistering an unknown id changes nothing.
    pub fn unregister(&mut self, device_id: DeviceId)
        requires
            old(self).wf(),
        ensures
            final(self).wf(),
            final(self).flags_map() == old(self).flags_map().remove(device_id),
            old(self).flags_map().dom().contains(device_id)
                ==> final(self).spec_len() == old(self).spec_len() - 1,
            !old(self).flags_map().dom().contains(device_id)
                ==> final(self).spec_len() == old(self).spec_len(),
    {
        proof {
            lemma_list_to_map_membership(self.entries@, device_id);
        }
        match self.find(device_id) {
            Some(i) => {
                proof {
                    lemma_list_to_map_remove(self.entries@, i as int);
                    lemma_distinct_keys_remove(self.entries@, i as int);
                }
                let _ = self.entries.remove(i);
            }
            None => {
                proof {
                    assert(old(self).flags_map().remove(device_id) =~= old(self).flags_map());
                }
            }
        }
    }

    /// ORs flag bits into a device's flag word, returning the previous word;
    /// unregistered ids are left alone and report zero.
    pub fn set(&mut self, device_id: DeviceId, flags: u32) -> (r: u32)
        requires
            old(self).wf(),
        ensures
            final(self).wf(),
            old(self).flags_map().dom().contains(device_id) ==> {
                &&& r == old(self).flags_map()[device_id]
                &&& final(self).flags_map()
                    == old(self).flags_map().insert(device_id, r | flags)
            },
            !old(self).flags_map().dom().contains(device_id)
                ==> r == 0 && final(self).flags_map() == old(self).flags_map(),
            final(self).spec_len() == old(self).spec_len(),
    {
        proof {
            lemma_list_to_map_membership(self.entries@, device_id);
        }
        match self.find(device_id) {
            Some(i) => {
                let prior = self.entries[i].1;
                proof {
                    lemma_list_to_map_update(self.entries@, i as int, prior | flags);
                }
                self.entries.set(i, (device_id, prior | flags));
                prior
            }
            None => 0,
        }
    }

    /// Reads and clears a device's flag word in one step; unregistered ids
    /// report zero.
    pub fn check_and_clear(&mut self, device_id: DeviceId) -> (r: u32)
        requires
            old(self).wf(),
        ensures
            final(self).wf(),
            old(self).flags_map().dom().contains(device_id) ==> {
                &&& r == old(self).flags_map()[device_id]
                &&& final(self).flags_map() == old(self).flags_map().insert(device_id, 0u32)
            },
            !old(self).flags_map().dom().contains(device_id)
                ==> r == 0 && final(self).flags_map() == old(self).flags_map(),
            final(self).spec_len() == old(self).spec_len(),
    {
        proof {
            lemma_list_to_map_membership(self.entries@, device_id);
        }
        match self.find(device_id) {
            Some(i) => {
                let prior = self.entries[i].1;
                proof {
                    lemma_list_to_map_update(self.entries@, i as int, 0u32);
                }
                self.entries.set(i, (device_id, 0));
                prior
            }
            None => 0,
        }
    }

    /// Reads a device's flag word without clearing it; unregistered ids
    /// report zero.
    pub fn peek(&self, device_id: DeviceId) -> (r: u32)
        requires
            self.wf(),
        ensures
            self.flags_map().dom().contains(device_id) ==> r == self.flags_map()[device_id],
            !self.flags_map().dom().contains(device_id) ==> r == 0,
    {
        proof {
            lemma_list_to_map_membership(self.entries@, device_id);
        }
        match self.find(device_id) {
            Some(i) => self.entries[i].1,
            None => 0,
        }
    }

    /// Clears a device's flag word; unregistered ids are left alone.
    pub fn clear(&mut self, device_id: DeviceId)
        requires
            old(self).wf(),
        ensures
            final(self).wf(),
            old(self).flags_map().dom().contains(device_id)
                ==> final(self).flags_map() == old(self).flags_map().insert(device_id, 0u32),
            !old(self).flags_map().dom().contains(device_id)
                ==> final(self).flags_map() == old(self).flags_map(),
            final(self).spec_len() == old(self).spec_len(),
    {
        proof {
            lemma_list_to_map_membership(self.entries@, device_id);
        }
        match self.find(device_id) {
            Some(i) => {
                proof {
                    lemma_list_to_map_update(self.entries@, i as int, 0u32);
                }
                self.entries.set(i, (device_id, 0));
            }
            None => {}
        }
    }

    /// Tests whether a device is registered for polling.
    pub fn contains(&self, device_id: DeviceId) -> (r: bool)
        requires
            self.wf(),
        ensures
            r == self.flags_map().dom().contains(device_id),
    {
        proof {
            lemma_list_to_map_membership(self.entries@, device_id);
        }
        self.find(device_id).is_some()
    }

    /// The number of registered devices.
    pub fn len(&self) -> (r: usize)
        ensures
            r == self.spec_len(),
    {
        self.entries.len()
    }

    /// Whether no device is registered.
    pub fn is_empty(&self) -> (r: bool)
        ensures
            r == (self.spec_len() == 0),
    {
        self.entries.len() == 0
    }

    /// Tests whether any registered device has a non-zero flag word.
    pub fn has_any_pending(&self) -> (r: bool)
        requires
            self.wf(),
        ensures
            r == exists|k: DeviceId| self.flags_map().dom().contains(k)
                && self.flags_map()[k] != 0,
    {
        let n = self.entries.len();
        let mut i: usize = 0;
        while i < n
            invariant
                n == self.entries@.len(),
                i <= n,
                self.wf(),
                forall|j: int| 0 <= j < i ==> self.entries@[j].1 == 0,
            decreases n - i,
        {
            if self.entries[i].1 != 0 {
                proof {
                    let k = self.entries@[i as int].0;
                    lemma_list_to_map_membership(self.entries@, k);
                    assert(self.flags_map().dom().contains(k));
                    assert(self.flags_map()[k] == self.entries@[i as int].1);
                }
                return true;
            }
            i = i + 1;
        }
        proof {
            assert forall|k: DeviceId| self.flags_map().dom().contains(k)
                implies self.flags_map()[k] == 0 by {
                lemma_list_to_map_membership(self.entries@, k);
                let j = choose|j: int| 0 <= j < self.entries@.len() && self.entries@[j].0 == k;
                assert(self.flags_map()[k] == self.entries@[j].1);
            }
        }
        false
    }

    /// Collects the devices whose flag word is non-zero, with their words.
    ///
    /// The result carries each such device exactly once; the order is the
    /// registration order.
    pub fn get_all_pending(&self) -> (r: Vec<(DeviceId, u32)>)
        requires
            self.wf(),
        ensures
            distinct_keys(r@),
            forall|i: int| 0 <= i < r@.len() ==> {
                &&& self.flags_map().dom().contains((#[trigger] r@[i]).0)
                &&& self.flags_map()[r@[i].0] == r@[i].1
                &&& r@[i].1 != 0
            },
            forall|k: DeviceId| self.flags_map().dom().contains(k) && self.flags_map()[k] != 0
                ==> exists|i: int| 0 <= i < r@.len() && (#[trigger] r@[i]).0 == k,
    {
        let n = self.entries.len();
        let mut out: Vec<(DeviceId, u32)> = Vec::new();
        let mut i: usize = 0;
        while i < n
            invariant
                n == self.entries@.len(),
                i <= n,
                self.wf(),
                forall|l: int| 0 <= l < out@.len() ==> exists|j: int|
                    0 <= j < i && self.entries@[j] == (#[trigger] out@[l]) && out@[l].1 != 0,
                forall|j: int| 0 <= j < i && (#[trigger] self.entries@[j]).1 != 0
                    ==> exists|l: int| 0 <= l < out@.len() && out@[l] == self.entries@[j],
                distinct_keys(out@),
            decreases n - i,
        {
            let entry = self.entries[i];
            if entry.1 != 0 {
                proof {
                    assert forall|l: int| 0 <= l < out@.len()
                        implies (#[trigger] out@[l]).0 != entry.0 by {
                        let j = choose|j: int| 0 <= j < i && self.entries@[j] == out@[l]
                            && out@[l].1 != 0;
                        assert(self.entries@[j].0 != self.entries@[i as int].0);
                    }
                }
                let ghost out0 = out@;
                out.push(entry);
                proof {
                    assert forall|j: int| 0 <= j < i + 1
                        && (#[trigger] self.entries@[j]).1 != 0
                        implies exists|l: int| 0 <= l < out@.len()
                            && out@[l] == self.entries@[j] by {
                        if j == i {
                            assert(out@[out@.len() - 1] == self.entries@[i as int]);
                        } else {
                            let l = choose|l: int| 0 <= l < out0.len()
                                && out0[l] == self.entries@[j];
                            assert(out@[l] == self.entries@[j]);
                        }
                    }
                }
            }
            i = i + 1;
        }
        proof {
            assert(i == n);
            assert forall|l: int| 0 <= l < out@.len() implies {
                &&& self.flags_map().dom().contains((#[trigger] out@[l]).0)
                &&& self.flags_map()[out@[l].0] == out@[l].1
                &&& out@[l].1 != 0
            } by {
                let j = choose|j: int| 0 <= j < n && self.entries@[j] == out@[l] && out@[l].1 != 0;
                lemma_list_to_map_membership(self.entries@, out@[l].0);
            }
            assert forall|k: DeviceId| self.flags_map().dom().contains(k)
                && self.flags_map()[k] != 0
                implies exists|l: int| 0 <= l < out@.len() && (#[trigger] out@[l]).0 == k by {
                lemma_list_to_map_membership(self.entries@, k);
                let j = choose|j: int| 0 <= j < self.entries@.len() && self.entries@[j].0 == k;
                assert(self.flags_map()[k] == self.entries@[j].1);
                assert(self.entries@[j].1 != 0);
                let l = choose|l: int| 0 <= l < out@.len() && out@[l] == self.entries@[j];
                assert(out@[l].0 == k);
            }
        }
        out
    }
}

/// The OR of all masks in a sequence.
pub open spec fn or_all(masks: Seq<u32>) -> u32
    decreases masks.len(),
{
    if masks.len() == 0 {
        0u32
    } else {
        or_all(masks.drop_last()) | masks.last()
    }
}

/// The flag table after one `set` of a mask on a device.
pub open spec fn poll_set_step(m: Map<DeviceId, u32>, id: DeviceId, mask: u32)
    -> Map<DeviceId, u32>
{
    if m.dom().contains(id) {
        m.insert(id, m[id] | mask)
    } else {
        m
    }
}

/// The flag table after a sequence of `set` calls of masks on a device.
pub open spec fn poll_after(m: Map<DeviceId, u32>, id: DeviceId, masks: Seq<u32>)
    -> Map<DeviceId, u32>
    decreases masks.len(),
{
    if masks.len() == 0 {
        m
    } else {
        poll_set_step(poll_after(m, id, masks.drop_last()), id, masks.last())
    }
}

/// Law: poll flags accumulate by OR.  After a sequence of `set(id, m1)`,
/// ..., `set(id, mk)` on a registered device with no intervening check, the
/// flag word holds its old value ORed with `m1 | ... | mk`; in particular a
/// `check_and_clear` then returns exactly that accumulation and leaves zero
/// behind.
pub proof fn lemma_poll_or_semantics(m: Map<DeviceId, u32>, id: DeviceId, masks: Seq<u32>)
    requires
        m.dom().contains(id),
    ensures
        poll_after(m, id, masks).dom() == m.dom(),
        poll_after(m, id, masks)[id] == m[id] | or_all(masks),
        forall|k: DeviceId| m.dom().contains(k) && k != id
            ==> poll_after(m, id, masks)[k] == m[k],
    decreases masks.len(),
{
    if masks.len() == 0 {
        let v = m[id];
        assert(v | 0u32 == v) by (bit_vector);
    } else {
        lemma_poll_or_semantics(m, id, masks.drop_last());
        let x = m[id];
        let y = or_all(masks.drop_last());
        let z = masks.last();
        assert((x | y) | z == x | (y | z)) by (bit_vector);
    }
}

} // verus!
