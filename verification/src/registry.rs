//! Per-address-class device registry: range index, device map, id counter.
//!
//! The registry maps guest address ranges to device ids and device ids to
//! wrapped backends.  Registered ranges never overlap, so an address is
//! owned by at most one device; removal drains the device and drops its
//! ranges, after which lookups at those addresses miss.

use vstd::prelude::*;

use crate::base::{AccessWidth, AddrRange};
use crate::devops::BaseDeviceOps;
use crate::errors::DeviceError;
use crate::kv::{
    distinct_keys, lemma_distinct_keys_remove, lemma_list_to_map_membership,
    lemma_list_to_map_push, lemma_list_to_map_remove, list_to_map,
};
use crate::lifecycle::DeviceState;
use crate::region::RegionHit;
use crate::wrapper::{bump, DeviceId, DeviceStats, DeviceWrapper};

verus! {

/// The device id the first range containing an address points to.
pub open spec fn route(rows: Seq<(AddrRange, DeviceId)>, addr: usize) -> Option<DeviceId>
    decreases rows.len(),
{
    if rows.len() == 0 {
        None
    } else if rows[0].0.spec_contains(addr) {
        Some(rows[0].1)
    } else {
        route(rows.skip(1), addr)
    }
}

/// Whether no two rows of the range index claim a common address.
pub open spec fn rows_disjoint(rows: Seq<(AddrRange, DeviceId)>) -> bool {
    forall|i: int, j: int| 0 <= i < j < rows.len()
        ==> !(#[trigger] rows[i]).0.spec_overlaps((#[trigger] rows[j]).0)
}

/// Whether a new range overlaps any row of the index.
pub open spec fn overlaps_rows(rows: Seq<(AddrRange, DeviceId)>, range: AddrRange) -> bool {
    exists|i: int| 0 <= i < rows.len() && (#[trigger] rows[i]).0.spec_overlaps(range)
}

/// The range index without the rows of one device.
pub open spec fn rows_without(rows: Seq<(AddrRange, DeviceId)>, id: DeviceId)
    -> Seq<(AddrRange, DeviceId)>
    decreases rows.len(),
{
    if rows.len() == 0 {
        rows
    } else if rows.last().1 == id {
        rows_without(rows.drop_last(), id)
    } else {
        rows_without(rows.drop_last(), id).push(rows.last())
    }
}

/// Every row kept by `rows_without` is a row of the original index with a
/// different id, and every such row is kept.
pub proof fn lemma_rows_without(rows: Seq<(AddrRange, DeviceId)>, id: DeviceId)
    ensures
        forall|k: int| 0 <= k < rows_without(rows, id).len()
            ==> (#[trigger] rows_without(rows, id)[k]).1 != id
                && exists|j: int| 0 <= j < rows.len() && rows[j] == rows_without(rows, id)[k],
        forall|j: int| 0 <= j < rows.len() && (#[trigger] rows[j]).1 != id
            ==> rows_without(rows, id).contains(rows[j]),
    decreases rows.len(),
{
    if rows.len() > 0 {
        lemma_rows_without(rows.drop_last(), id);
        assert(forall|j: int| 0 <= j < rows.len() - 1 ==> rows.drop_last()[j] == rows[j]);
        let kept = rows_without(rows, id);
        assert forall|k: int| 0 <= k < kept.len() implies (#[trigger] kept[k]).1 != id
            && exists|j: int| 0 <= j < rows.len() && rows[j] == kept[k] by {
            if rows.last().1 != id && k == kept.len() - 1 {
                assert(rows[rows.len() - 1] == kept[k]);
            } else {
                let prev = rows_without(rows.drop_last(), id);
                assert(kept[k] == prev[k]);
                let j = choose|j: int| 0 <= j < rows.drop_last().len()
                    && rows.drop_last()[j] == prev[k];
                assert(rows[j] == kept[k]);
            }
        }
        assert forall|j: int| 0 <= j < rows.len() && (#[trigger] rows[j]).1 != id
            implies rows_without(rows, id).contains(rows[j]) by {
            if j < rows.len() - 1 {
                let prev = rows_without(rows.drop_last(), id);
                assert(prev.contains(rows.drop_last()[j]));
                let k = choose|k: int| 0 <= k < prev.len() && prev[k] == rows[j];
                assert(rows_without(rows, id)[k] == rows[j]);
            } else {
                assert(rows_without(rows, id).last() == rows[j]);
            }
        }
    }
}

/// A route misses exactly when no row's range contains the address, and a
/// hit is the id of the first containing row.
pub proof fn lemma_route_correct(rows: Seq<(AddrRange, DeviceId)>, addr: usize)
    ensures
        route(rows, addr) is None
            <==> forall|i: int| 0 <= i < rows.len()
                ==> !(#[trigger] rows[i]).0.spec_contains(addr),
        route(rows, addr) is Some
            ==> exists|i: int| 0 <= i < rows.len()
                && (#[trigger] rows[i]).0.spec_contains(addr)
                && route(rows, addr) == Some(rows[i].1)
                && forall|j: int| 0 <= j < i ==> !rows[j].0.spec_contains(addr),
    decreases rows.len(),
{
    if rows.len() > 0 && !rows[0].0.spec_contains(addr) {
        lemma_route_correct(rows.skip(1), addr);
        assert(forall|i: int| 0 <= i < rows.skip(1).len()
            ==> rows.skip(1)[i] == rows[i + 1]);
        if route(rows, addr) is None {
            assert forall|i: int| 0 <= i < rows.len()
                implies !(#[trigger] rows[i]).0.spec_contains(addr) by {
                if i > 0 {
                    assert(rows.skip(1)[i - 1] == rows[i]);
                }
            }
        } else {
            let i = choose|i: int| 0 <= i < rows.skip(1).len()
                && (#[trigger] rows.skip(1)[i]).0.spec_contains(addr)
                && route(rows.skip(1), addr) == Some(rows.skip(1)[i].1)
                && forall|j: int| 0 <= j < i ==> !rows.skip(1)[j].0.spec_contains(addr);
            assert(rows[i + 1].0.spec_contains(addr));
            assert(route(rows, addr) == Some(rows[i + 1].1));
            assert(forall|j: int| 0 <= j < i + 1 ==> !(#[trigger] rows[j]).0.spec_contains(addr))
                by {
                assert(forall|j: int| 1 <= j < i + 1 ==> rows[j] == rows.skip(1)[j - 1]);
            }
        }
        if forall|i: int| 0 <= i < rows.len() ==> !(#[trigger] rows[i]).0.spec_contains(addr) {
            assert(forall|i: int| 0 <= i < rows.skip(1).len()
                ==> !(#[trigger] rows.skip(1)[i]).0.spec_contains(addr));
            assert(route(rows.skip(1), addr) is None);
        }
    }
}

/// Law: removal is a round trip.  In a disjoint range index, once the rows
/// of the device owning an address are dropped, a route of that address
/// misses: nothing else claims it.
pub proof fn lemma_route_after_removal(
    rows: Seq<(AddrRange, DeviceId)>,
    id: DeviceId,
    addr: usize,
)
    requires
        rows_disjoint(rows),
        route(rows, addr) == Some(id),
    ensures
        route(rows_without(rows, id), addr) is None,
{
    lemma_route_correct(rows, addr);
    let i = choose|i: int| 0 <= i < rows.len() && (#[trigger] rows[i]).0.spec_contains(addr)
        && route(rows, addr) == Some(rows[i].1)
        && forall|j: int| 0 <= j < i ==> !rows[j].0.spec_contains(addr);
    assert forall|j: int| 0 <= j < rows.len() && j != i
        implies !(#[trigger] rows[j]).0.spec_contains(addr) by {
        if rows[j].0.spec_contains(addr) {
            if j < i {
                assert(!rows[j].0.spec_contains(addr));
            } else {
                assert(rows[i].0.spec_overlaps(rows[j].0));
            }
        }
    }
    let kept = rows_without(rows, id);
    lemma_rows_without(rows, id);
    lemma_route_correct(kept, addr);
    assert forall|k: int| 0 <= k < kept.len()
        implies !(#[trigger] kept[k]).0.spec_contains(addr) by {
        let j = choose|j: int| 0 <= j < rows.len() && rows[j] == kept[k];
        if j == i {
            assert(kept[k].1 == id);
        }
    }
}

/// What a read dispatch does: `NotFound` when no registered range contains
/// the address, otherwise the owning device's guarded-read effect.
pub open spec fn read_dispatch_post<D: BaseDeviceOps>(
    pre: DeviceRegistry<D>,
    post: DeviceRegistry<D>,
    addr: usize,
    r: Result<usize, DeviceError>,
) -> bool {
    &&& post.ranges() == pre.ranges()
    &&& post.spec_next_id() == pre.spec_next_id()
    &&& post.device_map().dom() == pre.device_map().dom()
    &&& route(pre.ranges(), addr) is None
        ==> r == Err::<usize, DeviceError>(DeviceError::NotFound)
            && post.device_map() == pre.device_map()
    &&& route(pre.ranges(), addr) is Some ==> {
        let id = route(pre.ranges(), addr)->Some_0;
        let w = pre.device_map()[id];
        &&& pre.device_map().dom().contains(id)
        &&& forall|k: DeviceId| k != id && pre.device_map().dom().contains(k)
            ==> post.device_map()[k] == pre.device_map()[k]
        &&& post.device_map()[id].spec_id() == w.spec_id()
        &&& post.device_map()[id].spec_state() == w.spec_state()
        &&& post.device_map()[id].spec_count() == w.spec_count()
        &&& !w.grants_access() ==> {
            &&& r == Err::<usize, DeviceError>(DeviceError::BadState)
            &&& post.device_map()[id].spec_stats() == (DeviceStats {
                error_count: bump(w.spec_stats().error_count),
                ..w.spec_stats()
            })
            &&& post.device_map()[id].spec_inner() == w.spec_inner()
        }
        &&& w.grants_access() ==> {
            &&& r is Ok ==> post.device_map()[id].spec_stats() == (DeviceStats {
                read_count: bump(w.spec_stats().read_count),
                ..w.spec_stats()
            })
            &&& r is Err ==> post.device_map()[id].spec_stats() == (DeviceStats {
                error_count: bump(w.spec_stats().error_count),
                ..w.spec_stats()
            })
        }
    }
}

/// What a write dispatch does: `NotFound` when no registered range contains
/// the address, otherwise the owning device's guarded-write effect.
pub open spec fn write_dispatch_post<D: BaseDeviceOps>(
    pre: DeviceRegistry<D>,
    post: DeviceRegistry<D>,
    addr: usize,
    r: Result<(), DeviceError>,
) -> bool {
    &&& post.ranges() == pre.ranges()
    &&& post.spec_next_id() == pre.spec_next_id()
    &&& post.device_map().dom() == pre.device_map().dom()
    &&& route(pre.ranges(), addr) is None
        ==> r == Err::<(), DeviceError>(DeviceError::NotFound)
            && post.device_map() == pre.device_map()
    &&& route(pre.ranges(), addr) is Some ==> {
        let id = route(pre.ranges(), addr)->Some_0;
        let w = pre.device_map()[id];
        &&& pre.device_map().dom().contains(id)
        &&& forall|k: DeviceId| k != id && pre.device_map().dom().contains(k)
            ==> post.device_map()[k] == pre.device_map()[k]
        &&& post.device_map()[id].spec_id() == w.spec_id()
        &&& post.device_map()[id].spec_state() == w.spec_state()
        &&& post.device_map()[id].spec_count() == w.spec_count()
        &&& !w.grants_access() ==> {
            &&& r == Err::<(), DeviceError>(DeviceError::BadState)
            &&& post.device_map()[id].spec_stats() == (DeviceStats {
                error_count: bump(w.spec_stats().error_count),
                ..w.spec_stats()
            })
            &&& post.device_map()[id].spec_inner() == w.spec_inner()
        }
        &&& w.grants_access() ==> {
            &&& r is Ok ==> post.device_map()[id].spec_stats() == (DeviceStats {
                write_count: bump(w.spec_stats().write_count),
                ..w.spec_stats()
            })
            &&& r is Err ==> post.device_map()[id].spec_stats() == (DeviceStats {
                error_count: bump(w.spec_stats().error_count),
                ..w.spec_stats()
            })
        }
    }
}

/// Device registry for one address class.
pub struct DeviceRegistry<D: BaseDeviceOps> {
    range_list: Vec<(AddrRange, DeviceId)>,
    devices: Vec<(DeviceId, DeviceWrapper<D>)>,
    next_id: usize,
}

impl<D: BaseDeviceOps> DeviceRegistry<D> {
    /// The range index: `(range, device id)` rows in registration order.
    pub closed spec fn ranges(self) -> Seq<(AddrRange, DeviceId)> {
        self.range_list@
    }

    /// The device map.
    pub closed spec fn device_map(self) -> Map<DeviceId, DeviceWrapper<D>> {
        list_to_map(self.devices@)
    }

    /// The number of registered devices.
    pub closed spec fn spec_device_count(self) -> nat {
        self.devices@.len()
    }

    /// The id the next registration will receive.
    pub closed spec fn spec_next_id(self) -> usize {
        self.next_id
    }

    /// Well-formedness: device ids are distinct, below the id counter and
    /// so below the reserved passthrough base, every range row points at a
    /// registered device, registered ranges are pairwise disjoint, and no
    /// access is in flight between registry calls.
    pub closed spec fn wf(self) -> bool {
        &&& distinct_keys(self.devices@)
        &&& 1 <= self.next_id <= crate::wrapper::PASSTHROUGH_BASE
        &&& forall|i: int| 0 <= i < self.devices@.len()
            ==> (#[trigger] self.devices@[i]).0.0 < self.next_id
        &&& forall|i: int| 0 <= i < self.range_list@.len()
            ==> self.device_map().dom().contains((#[trigger] self.range_list@[i]).1)
        &&& rows_disjoint(self.range_list@)
        &&& forall|i: int| 0 <= i < self.devices@.len()
            ==> (#[trigger] self.devices@[i]).1.spec_count() == 0
        &&& forall|i: int| 0 <= i < self.devices@.len()
            ==> (#[trigger] self.devices@[i]).1.spec_id() == self.devices@[i].0
    }

    /// A registered wrapper carries the id it is registered under.
    pub proof fn lemma_id_matches(self, id: DeviceId)
        requires
            self.wf(),
            self.device_map().dom().contains(id),
        ensures
            self.device_map()[id].spec_id() == id,
    {
        lemma_list_to_map_membership(self.devices@, id);
    }

    /// Creates an empty registry; ids start at 1.
    pub fn new() -> (r: Self)
        ensures
            r.wf(),
            r.ranges() =~= Seq::<(AddrRange, DeviceId)>::empty(),
            r.device_map() =~= Map::<DeviceId, DeviceWrapper<D>>::empty(),
            r.spec_device_count() == 0,
            r.spec_next_id() == 1,
    {
        Self { range_list: Vec::new(), devices: Vec::new(), next_id: 1 }
    }

    /// Finds the map index of a device id.
    fn find_device(&self, id: DeviceId) -> (r: Option<usize>)
        ensures
            r is Some ==> r->Some_0 < self.devices@.len()
                && self.devices@[r->Some_0 as int].0 == id,
            r is None ==> forall|j: int| 0 <= j < self.devices@.len()
                ==> self.devices@[j].0 != id,
    {
        let n = self.devices.len();
        let mut i: usize = 0;
        while i < n
            invariant
                n == self.devices@.len(),
                i <= n,
                forall|j: int| 0 <= j < i ==> self.devices@[j].0 != id,
            decreases n - i,
        {
            if self.devices[i].0 == id {
                return Some(i);
            }
            i = i + 1;
        }
        None
    }

    /// Finds the device id owning an address: the first registered range
    /// that contains it.
    fn find_device_id(&self, addr: usize) -> (r: Option<DeviceId>)
        ensures
            r == route(self.ranges(), addr),
    {
        let ghost all = self.ranges();
        let n = self.range_list.len();
        let mut i: usize = 0;
        while i < n
            invariant
                n == self.range_list@.len(),
                i <= n,
                all == self.ranges(),
                forall|j: int| 0 <= j < i ==> !(#[trigger] all[j]).0.spec_contains(addr),
            decreases n - i,
        {
            let row = self.range_list[i];
            if row.0.contains(addr) {
                proof {
                    lemma_route_skip(all, addr, i as int);
                    assert(all.skip(i as int)[0] == all[i as int]);
                }
                return Some(row.1);
            }
            i = i + 1;
        }
        proof {
            lemma_route_skip(all, addr, i as int);
        }
        None
    }

    /// Registers a device that claims the given address ranges.
    ///
    /// Returns the assigned id.  Fails with `InvalidInput` when no range is
    /// claimed, and with `AlreadyExists` when a claimed range overlaps a
    /// registered range or another claimed range; a failed registration
    /// changes nothing.
    pub fn add_device_with_ranges(&mut self, device: D, ranges: &Vec<AddrRange>)
        -> (r: Result<DeviceId, DeviceError>)
        requires
            old(self).wf(),
            old(self).spec_next_id() < crate::wrapper::PASSTHROUGH_BASE,
        ensures
            final(self).wf(),
            ranges@.len() == 0 ==> r == Err::<DeviceId, DeviceError>(DeviceError::InvalidInput)
                && *final(self) == *old(self),
            ranges@.len() > 0 && (exists|j: int| 0 <= j < ranges@.len()
                && overlaps_rows(old(self).ranges(), #[trigger] ranges@[j])
                || exists|i: int, j: int| 0 <= i < j < ranges@.len()
                    && (#[trigger] ranges@[i]).spec_overlaps(#[trigger] ranges@[j]))
                ==> r == Err::<DeviceId, DeviceError>(DeviceError::AlreadyExists)
                    && *final(self) == *old(self),
            ranges@.len() > 0
                && (forall|j: int| 0 <= j < ranges@.len()
                    ==> !overlaps_rows(old(self).ranges(), #[trigger] ranges@[j]))
                && (forall|a: int, b: int| 0 <= a < b < ranges@.len()
                    ==> !(#[trigger] ranges@[a]).spec_overlaps(#[trigger] ranges@[b]))
                ==> r is Ok,
            r is Ok ==> {
                let id = DeviceId(old(self).spec_next_id());
                &&& r == Ok::<DeviceId, DeviceError>(id)
                &&& !old(self).device_map().dom().contains(id)
                &&& !id.is_passthrough_spec()
                &&& final(self).ranges().len() == old(self).ranges().len() + ranges@.len()
                &&& forall|i: int| 0 <= i < old(self).ranges().len()
                    ==> final(self).ranges()[i] == old(self).ranges()[i]
                &&& forall|j: int| 0 <= j < ranges@.len()
                    ==> final(self).ranges()[old(self).ranges().len() + j]
                        == (ranges@[j], id)
                &&& final(self).device_map().dom() == old(self).device_map().dom().insert(id)
                &&& final(self).device_map()[id].spec_id() == id
                &&& final(self).device_map()[id].spec_state() == DeviceState::Active
                &&& forall|k: DeviceId| k != id && old(self).device_map().dom().contains(k)
                    ==> final(self).device_map()[k] == old(self).device_map()[k]
                &&& final(self).spec_next_id() == old(self).spec_next_id() + 1
            },
            r is Err ==> *final(self) == *old(self),
    {
        if ranges.len() == 0 {
            return Err(DeviceError::InvalidInput);
        }

        // Overlap detection is linear: a typical VM holds few devices.
        let ghost rows0 = self.range_list@;
        let n = ranges.len();
        let mut j: usize = 0;
        while j < n
            invariant
                n == ranges@.len(),
                j <= n,
                old(self).wf(),
                *self == *old(self),
                rows0 == self.range_list@,
                forall|l: int| 0 <= l < j
                    ==> !overlaps_rows(rows0, (#[trigger] ranges@[l])),
                forall|a: int, b: int| 0 <= a < b < j
                    ==> !(#[trigger] ranges@[a]).spec_overlaps(#[trigger] ranges@[b]),
            decreases n - j,
        {
            let candidate = ranges[j];
            let m = self.range_list.len();
            let mut i: usize = 0;
            while i < m
                invariant
                    m == self.range_list@.len(),
                    i <= m,
                    old(self).wf(),
                    *self == *old(self),
                    rows0 == self.range_list@,
                    forall|l: int| 0 <= l < i
                        ==> !(#[trigger] self.range_list@[l]).0.spec_overlaps(candidate),
                    candidate == ranges@[j as int],
                    j < n == ranges@.len(),
                decreases m - i,
            {
                if self.range_list[i].0.overlaps(&candidate) {
                    return Err(DeviceError::AlreadyExists);
                }
                i = i + 1;
            }
            let mut a: usize = 0;
            while a < j
                invariant
                    a <= j < n == ranges@.len(),
                    old(self).wf(),
                    *self == *old(self),
                    candidate == ranges@[j as int],
                    forall|l: int| 0 <= l < a
                        ==> !(#[trigger] ranges@[l]).spec_overlaps(candidate),
                decreases j - a,
            {
                if ranges[a].overlaps(&candidate) {
                    return Err(DeviceError::AlreadyExists);
                }
                a = a + 1;
            }
            j = j + 1;
        }

        let id = DeviceId(self.next_id);
        self.next_id = self.next_id + 1;

        proof {
            lemma_list_to_map_membership(self.devices@, id);
        }

        let ghost devs0 = self.devices@;
        let ghost next1 = self.next_id;
        let mut j: usize = 0;
        while j < n
            invariant
                n == ranges@.len(),
                j <= n,
                self.devices@ == devs0,
                self.next_id == next1,
                self.range_list@.len() == rows0.len() + j,
                forall|i: int| 0 <= i < rows0.len()
                    ==> self.range_list@[i] == rows0[i],
                forall|l: int| 0 <= l < j
                    ==> self.range_list@[rows0.len() + l] == (ranges@[l], id),
                forall|l: int| 0 <= l < n
                    ==> !overlaps_rows(rows0, (#[trigger] ranges@[l])),
                forall|a: int, b: int| 0 <= a < b < n
                    ==> !(#[trigger] ranges@[a]).spec_overlaps(#[trigger] ranges@[b]),
            decreases n - j,
        {
            self.range_list.push((ranges[j], id));
            j = j + 1;
        }

        let wrapper = DeviceWrapper::new(id, device);
        proof {
            lemma_list_to_map_push(self.devices@, id, wrapper);
        }
        self.devices.push((id, wrapper));

        proof {
            assert(self.device_map().dom() =~= old(self).device_map().dom().insert(id));
            assert forall|i: int| 0 <= i < self.range_list@.len()
                implies self.device_map().dom().contains(
                (#[trigger] self.range_list@[i]).1,
            ) by {
                if i < rows0.len() {
                    assert(self.range_list@[i] == rows0[i]);
                } else {
                    assert(self.range_list@[i] == (ranges@[i - rows0.len()], id));
                }
            }
            assert forall|i: int, l: int| 0 <= i < l < self.range_list@.len()
                implies !(#[trigger] self.range_list@[i]).0.spec_overlaps(
                (#[trigger] self.range_list@[l]).0,
            ) by {
                if l < rows0.len() {
                    // Both rows predate this registration.
                    assert(self.range_list@[i] == rows0[i]);
                    assert(self.range_list@[l] == rows0[l]);
                    assert(!rows0[i].0.spec_overlaps(rows0[l].0));
                } else {
                    let b = l - rows0.len();
                    assert(self.range_list@[l].0 == ranges@[b]);
                    if i < rows0.len() {
                        assert(self.range_list@[i] == rows0[i]);
                        assert(!overlaps_rows(rows0, ranges@[b]));
                        assert(!rows0[i].0.spec_overlaps(ranges@[b]));
                        lemma_overlaps_symmetric(rows0[i].0, ranges@[b]);
                    } else {
                        let a = i - rows0.len();
                        assert(!ranges@[a].spec_overlaps(ranges@[b]));
                        lemma_overlaps_symmetric(ranges@[a], ranges@[b]);
                    }
                }
            }
        }
        Ok(id)
    }

    /// Gets the wrapper of a registered device.
    ///
    /// Returns `None` exactly when the id is not registered.
    pub fn get_device(&self, id: DeviceId) -> (r: Option<&DeviceWrapper<D>>)
        requires
            self.wf(),
        ensures
            r is Some <==> self.device_map().dom().contains(id),
            r is Some ==> *r->Some_0 == self.device_map()[id],
    {
        proof {
            lemma_list_to_map_membership(self.devices@, id);
        }
        match self.find_device(id) {
            Some(j) => Some(&self.devices[j].1),
            None => None,
        }
    }

    /// Gets the wrapper of the device owning an address.
    ///
    /// Returns `None` exactly when no registered range contains the address.
    pub fn get_device_by_addr(&self, addr: usize) -> (r: Option<&DeviceWrapper<D>>)
        requires
            self.wf(),
        ensures
            r is Some <==> route(self.ranges(), addr) is Some,
            r is Some ==> self.device_map().dom().contains(route(self.ranges(), addr)->Some_0)
                && *r->Some_0 == self.device_map()[route(self.ranges(), addr)->Some_0],
    {
        proof {
            lemma_route_correct(self.ranges(), addr);
        }
        match self.find_device_id(addr) {
            Some(id) => self.get_device(id),
            None => None,
        }
    }

    /// Finds the device owning an address together with its region hit, when
    /// the device has multi-region support.
    pub fn find_device_with_region(&self, addr: usize)
        -> (r: Option<(&DeviceWrapper<D>, Option<RegionHit>)>)
        requires
            self.wf(),
        ensures
            r is Some <==> route(self.ranges(), addr) is Some,
            r is Some ==> *r->Some_0.0
                == self.device_map()[route(self.ranges(), addr)->Some_0],
    {
        proof {
            lemma_route_correct(self.ranges(), addr);
        }
        match self.get_device_by_addr(addr) {
            Some(wrapper) => {
                let hit = wrapper.lookup_region(addr);
                Some((wrapper, hit))
            }
            None => None,
        }
    }

    /// Dispatches a read at an address to the owning device's wrapper.
    ///
    /// Fails with `NotFound`, changing nothing, exactly when no registered
    /// range contains the address; otherwise the owning wrapper performs the
    /// guarded read, recording statistics and failing with `BadState` when
    /// the device is not Active.
    pub fn handle_read(&mut self, addr: usize, width: AccessWidth)
        -> (r: Result<usize, DeviceError>)
        requires
            old(self).wf(),
        ensures
            final(self).wf(),
            read_dispatch_post(*old(self), *final(self), addr, r),
    {
        let id = match self.find_device_id(addr) {
            Some(id) => id,
            None => {
                return Err(DeviceError::NotFound);
            }
        };
        proof {
            lemma_route_correct(self.ranges(), addr);
            lemma_list_to_map_membership(self.devices@, id);
        }
        let j = match self.find_device(id) {
            Some(j) => j,
            None => {
                return Err(DeviceError::NotFound);
            }
        };
        proof {
            lemma_list_to_map_remove(self.devices@, j as int);
            lemma_distinct_keys_remove(self.devices@, j as int);
            lemma_list_to_map_membership(self.devices@.remove(j as int), id);
        }
        let (did, mut w) = self.devices.remove(j);
        let result = w.try_access_for_read(addr, width);
        proof {
            lemma_list_to_map_push(self.devices@, did, w);
        }
        self.devices.push((did, w));
        proof {
            assert(self.device_map() =~= old(self).device_map().insert(id, w));
            assert(self.device_map().dom() =~= old(self).device_map().dom());
        }
        result
    }

    /// Dispatches a write at an address to the owning device's wrapper.
    ///
    /// Fails with `NotFound`, changing nothing, exactly when no registered
    /// range contains the address; otherwise the owning wrapper performs the
    /// guarded write, recording statistics and failing with `BadState` when
    /// the device is not Active.
    pub fn handle_write(&mut self, addr: usize, width: AccessWidth, val: usize)
        -> (r: Result<(), DeviceError>)
        requires
            old(self).wf(),
        ensures
            final(self).wf(),
            write_dispatch_post(*old(self), *final(self), addr, r),
    {
        let id = match self.find_device_id(addr) {
            Some(id) => id,
            None => {
                return Err(DeviceError::NotFound);
            }
        };
        proof {
            lemma_route_correct(self.ranges(), addr);
            lemma_list_to_map_membership(self.devices@, id);
        }
        let j = match self.find_device(id) {
            Some(j) => j,
            None => {
                return Err(DeviceError::NotFound);
            }
        };
        proof {
            lemma_list_to_map_remove(self.devices@, j as int);
            lemma_distinct_keys_remove(self.devices@, j as int);
            lemma_list_to_map_membership(self.devices@.remove(j as int), id);
        }
        let (did, mut w) = self.devices.remove(j);
        let result = w.try_access_for_write(addr, width, val);
        proof {
            lemma_list_to_map_push(self.devices@, did, w);
        }
        self.devices.push((did, w));
        proof {
            assert(self.device_map() =~= old(self).device_map().insert(id, w));
            assert(self.device_map().dom() =~= old(self).device_map().dom());
        }
        result
    }

    /// Removes a device: marks it Removing, waits for in-flight accesses to
    /// drain, drops its range rows, marks it Removed and erases it from the
    /// device map.  Every range row carrying the device's id belongs to the
    /// device, so all such rows are dropped.
    ///
    /// Fails with `NotFound` when the id is not registered and with
    /// `BadState` when the device is not Active; a failed removal changes
    /// nothing.
    pub fn remove_device(&mut self, id: DeviceId) -> (r: Result<(), DeviceError>)
        requires
            old(self).wf(),
        ensures
            final(self).wf(),
            final(self).spec_next_id() == old(self).spec_next_id(),
            !old(self).device_map().dom().contains(id)
                ==> r == Err::<(), DeviceError>(DeviceError::NotFound)
                    && *final(self) == *old(self),
            old(self).device_map().dom().contains(id)
                && old(self).device_map()[id].spec_state() != DeviceState::Active
                ==> r == Err::<(), DeviceError>(DeviceError::BadState)
                    && *final(self) == *old(self),
            old(self).device_map().dom().contains(id)
                && old(self).device_map()[id].spec_state() == DeviceState::Active ==> {
                &&& r is Ok
                &&& final(self).device_map() == old(self).device_map().remove(id)
                &&& final(self).ranges() == rows_without(old(self).ranges(), id)
                &&& forall|addr: usize| route(old(self).ranges(), addr) == Some(id)
                    ==> route(final(self).ranges(), addr) is None
            },
    {
        proof {
            lemma_list_to_map_membership(self.devices@, id);
        }
        let j = match self.find_device(id) {
            Some(j) => j,
            None => {
                return Err(DeviceError::NotFound);
            }
        };

        if !self.devices[j].1.is_active() {
            return Err(DeviceError::BadState);
        }

        proof {
            lemma_list_to_map_remove(self.devices@, j as int);
            lemma_distinct_keys_remove(self.devices@, j as int);
        }
        let (_, mut w) = self.devices.remove(j);

        let began = w.begin_removal();
        proof {
            assert(began);
        }

        w.wait_idle();

        // Drop every range row carrying this device's id.
        let ghost rows0 = self.range_list@;
        let n = self.range_list.len();
        let mut kept: Vec<(AddrRange, DeviceId)> = Vec::new();
        let mut i: usize = 0;
        while i < n
            invariant
                n == self.range_list@.len(),
                i <= n,
                rows0 == self.range_list@,
                kept@ =~= rows_without(rows0.take(i as int), id),
            decreases n - i,
        {
            let row = self.range_list[i];
            proof {
                assert(rows0.take(i as int + 1).drop_last() =~= rows0.take(i as int));
                assert(rows0.take(i as int + 1).last() == row);
            }
            if row.1 != id {
                kept.push(row);
            }
            i = i + 1;
        }
        proof {
            assert(rows0.take(n as int) =~= rows0);
        }
        self.range_list = kept;

        w.complete_removal();

        proof {
            lemma_rows_without(rows0, id);
            lemma_rows_without_disjoint(rows0, id);
            assert forall|k: int| 0 <= k < self.range_list@.len()
                implies self.device_map().dom().contains(
                (#[trigger] self.range_list@[k]).1,
            ) by {
                let l = choose|l: int| 0 <= l < rows0.len()
                    && rows0[l] == self.range_list@[k];
                assert(old(self).device_map().dom().contains(rows0[l].1));
                assert(self.device_map() =~= old(self).device_map().remove(id));
            }
            assert forall|addr: usize| route(rows0, addr) == Some(id)
                implies route(self.range_list@, addr) is None by {
                lemma_route_after_removal(rows0, id, addr);
            }
        }
        Ok(())
    }

    /// Whether the id counter can still assign a fresh id below the
    /// reserved passthrough base.
    pub fn can_assign_id(&self) -> (r: bool)
        ensures
            r == (self.spec_next_id() < crate::wrapper::PASSTHROUGH_BASE),
    {
        self.next_id < crate::wrapper::PASSTHROUGH_BASE
    }

    /// Hands a registered device its notifier.
    ///
    /// Returns `true` exactly when the id is registered; an unknown id
    /// changes nothing.
    pub fn set_device_notifier(&mut self, id: DeviceId, notifier: crate::notifier::DeviceNotifierImpl)
        -> (r: bool)
        requires
            old(self).wf(),
        ensures
            final(self).wf(),
            r == old(self).device_map().dom().contains(id),
            final(self).ranges() == old(self).ranges(),
            final(self).spec_next_id() == old(self).spec_next_id(),
            final(self).device_map().dom() == old(self).device_map().dom(),
            forall|k: DeviceId| k != id && old(self).device_map().dom().contains(k)
                ==> final(self).device_map()[k] == old(self).device_map()[k],
            r ==> {
                let w = old(self).device_map()[id];
                &&& final(self).device_map()[id].spec_id() == w.spec_id()
                &&& final(self).device_map()[id].spec_state() == w.spec_state()
                &&& final(self).device_map()[id].spec_count() == w.spec_count()
                &&& final(self).device_map()[id].spec_stats() == w.spec_stats()
            },
            !r ==> *final(self) == *old(self),
    {
        proof {
            lemma_list_to_map_membership(self.devices@, id);
        }
        match self.find_device(id) {
            Some(j) => {
                proof {
                    lemma_list_to_map_remove(self.devices@, j as int);
                    lemma_distinct_keys_remove(self.devices@, j as int);
                    lemma_list_to_map_membership(self.devices@.remove(j as int), id);
                }
                let (did, mut w) = self.devices.remove(j);
                w.set_notifier(notifier);
                proof {
                    lemma_list_to_map_push(self.devices@, did, w);
                }
                self.devices.push((did, w));
                proof {
                    assert(self.device_map() =~= old(self).device_map().insert(id, w));
                    assert(self.device_map().dom() =~= old(self).device_map().dom());
                }
                true
            }
            None => false,
        }
    }

    /// Lists the registered device ids.
    ///
    /// The result carries each registered id exactly once.
    pub fn list_devices(&self) -> (r: Vec<DeviceId>)
        requires
            self.wf(),
        ensures
            r@.len() == self.spec_device_count(),
            forall|i: int| 0 <= i < r@.len()
                ==> self.device_map().dom().contains(#[trigger] r@[i]),
            forall|i: int, j: int| 0 <= i < j < r@.len() ==> r@[i] != r@[j],
            forall|k: DeviceId| self.device_map().dom().contains(k)
                ==> exists|i: int| 0 <= i < r@.len() && #[trigger] r@[i] == k,
    {
        let n = self.devices.len();
        let mut out: Vec<DeviceId> = Vec::new();
        let mut i: usize = 0;
        while i < n
            invariant
                n == self.devices@.len(),
                i <= n,
                self.wf(),
                out@.len() == i,
                forall|j: int| 0 <= j < i ==> #[trigger] out@[j] == self.devices@[j].0,
            decreases n - i,
        {
            out.push(self.devices[i].0);
            i = i + 1;
        }
        proof {
            assert forall|l: int| 0 <= l < out@.len()
                implies self.device_map().dom().contains(#[trigger] out@[l]) by {
                lemma_list_to_map_membership(self.devices@, out@[l]);
            }
            assert forall|k: DeviceId| self.device_map().dom().contains(k)
                implies exists|l: int| 0 <= l < out@.len() && #[trigger] out@[l] == k by {
                lemma_list_to_map_membership(self.devices@, k);
                let j = choose|j: int| 0 <= j < self.devices@.len() && self.devices@[j].0 == k;
                assert(out@[j] == k);
            }
        }
        out
    }

    /// Gets a device's statistics as `(reads, writes, errors)`.
    ///
    /// Returns `None` exactly when the id is not registered.
    pub fn get_device_stats(&self, id: DeviceId) -> (r: Option<(u64, u64, u64)>)
        requires
            self.wf(),
        ensures
            r is Some <==> self.device_map().dom().contains(id),
            r is Some ==> {
                let stats = self.device_map()[id].spec_stats();
                r->Some_0 == (stats.read_count, stats.write_count, stats.error_count)
            },
    {
        match self.get_device(id) {
            Some(wrapper) => {
                let stats = wrapper.stats();
                Some((stats.reads(), stats.writes(), stats.errors()))
            }
            None => None,
        }
    }

    /// The number of registered devices.
    pub fn device_count(&self) -> (r: usize)
        ensures
            r == self.spec_device_count(),
    {
        self.devices.len()
    }

    /// Registers a device, snapshotting the ranges it claims.
    ///
    /// Returns the assigned id; fails as `add_device_with_ranges` does when
    /// the claimed ranges are empty or conflict.
    pub fn add_device(&mut self, device: D) -> (r: Result<DeviceId, DeviceError>)
        requires
            old(self).wf(),
            old(self).spec_next_id() < crate::wrapper::PASSTHROUGH_BASE,
        ensures
            final(self).wf(),
            r is Err ==> *final(self) == *old(self),
            r is Ok ==> {
                let id = DeviceId(old(self).spec_next_id());
                &&& r == Ok::<DeviceId, DeviceError>(id)
                &&& !old(self).device_map().dom().contains(id)
                &&& !id.is_passthrough_spec()
                &&& final(self).device_map().dom() == old(self).device_map().dom().insert(id)
                &&& final(self).device_map()[id].spec_id() == id
                &&& final(self).device_map()[id].spec_state() == DeviceState::Active
                &&& forall|k: DeviceId| k != id && old(self).device_map().dom().contains(k)
                    ==> final(self).device_map()[k] == old(self).device_map()[k]
                &&& final(self).spec_next_id() == old(self).spec_next_id() + 1
            },
    {
        let ranges = device.address_ranges();
        self.add_device_with_ranges(device, &ranges)
    }
}

/// Overlap of address ranges is symmetric.
proof fn lemma_overlaps_symmetric(a: AddrRange, b: AddrRange)
    ensures
        a.spec_overlaps(b) == b.spec_overlaps(a),
{
}

/// Dropping a device's rows from a disjoint index keeps the rest disjoint.
proof fn lemma_rows_without_disjoint(rows: Seq<(AddrRange, DeviceId)>, id: DeviceId)
    requires
        rows_disjoint(rows),
    ensures
        rows_disjoint(rows_without(rows, id)),
    decreases rows.len(),
{
    if rows.len() > 0 {
        assert(forall|j: int| 0 <= j < rows.len() - 1 ==> rows.drop_last()[j] == rows[j]);
        lemma_rows_without_disjoint(rows.drop_last(), id);
        lemma_rows_without(rows.drop_last(), id);
        let prev = rows_without(rows.drop_last(), id);
        if rows.last().1 != id {
            let kept = rows_without(rows, id);
            assert forall|a: int, b: int| 0 <= a < b < kept.len()
                implies !(#[trigger] kept[a]).0.spec_overlaps((#[trigger] kept[b]).0) by {
                if b == kept.len() - 1 {
                    assert(kept[a] == prev[a]);
                    assert(kept[b] == rows.last());
                    let j = choose|j: int| 0 <= j < rows.drop_last().len()
                        && rows.drop_last()[j] == prev[a];
                    assert(rows[j] == kept[a]);
                    assert(!rows[j].0.spec_overlaps(rows[rows.len() - 1].0));
                } else {
                    assert(kept[a] == prev[a] && kept[b] == prev[b]);
                }
            }
        }
    }
}

/// A route ignores a prefix of rows whose ranges do not contain the
/// address.
proof fn lemma_route_skip(rows: Seq<(AddrRange, DeviceId)>, addr: usize, i: int)
    requires
        0 <= i <= rows.len(),
        forall|j: int| 0 <= j < i ==> !(#[trigger] rows[j]).0.spec_contains(addr),
    ensures
        route(rows, addr) == route(rows.skip(i), addr),
    decreases i,
{
    if i > 0 {
        assert(rows.skip(1).skip(i - 1) =~= rows.skip(i));
        lemma_route_skip(rows.skip(1), addr, i - 1);
    } else {
        assert(rows.skip(0) =~= rows);
    }
}

} // verus!
