//! Device identity, access statistics, and the per-device wrapper that
//! guards every backend access with the lifecycle protocol.

use vstd::prelude::*;

use crate::base::AccessWidth;
use crate::devops::BaseDeviceOps;
use crate::errors::DeviceError;
use crate::lifecycle::{DeviceLifecycle, DeviceState, COUNT_MASK};
use crate::region::{CachedRegions, RegionHit};

verus! {

/// Base of the reserved id range that encodes passthrough identities.
pub const PASSTHROUGH_BASE: usize = 0x1000_0000;

/// Unique identifier for a device.
///
/// Ids are assigned monotonically from a counter starting at 1.  A reserved
/// high range starting at [`PASSTHROUGH_BASE`] encodes passthrough
/// identities as the base plus the IRQ number, so passthrough-injected
/// notifications carry a synthetic id without polluting the emulated-device
/// id space.
#[derive(Debug, Clone, Copy, PartialEq, Eq, PartialOrd, Ord, Hash, Structural)]
pub struct DeviceId(pub usize);

impl DeviceId {
    /// Creates the synthetic device id for a passthrough interrupt.
    pub fn passthrough(irq: u32) -> (r: Self)
        requires
            PASSTHROUGH_BASE + irq <= usize::MAX,
        ensures
            r.0 == PASSTHROUGH_BASE + irq,
            r.is_passthrough_spec(),
    {
        Self(PASSTHROUGH_BASE + irq as usize)
    }

    /// Whether this id lies in the reserved passthrough range.
    pub open spec fn is_passthrough_spec(self) -> bool {
        self.0 >= PASSTHROUGH_BASE
    }

    /// Tests whether this id represents a passthrough device.
    pub fn is_passthrough(&self) -> (r: bool)
        ensures
            r == self.is_passthrough_spec(),
    {
        self.0 >= PASSTHROUGH_BASE
    }
}

/// Statistics for device access operations.
///
/// Counters saturate at their maximum rather than wrap.
#[derive(Debug, Clone, Copy, PartialEq, Eq, Structural)]
pub struct DeviceStats {
    /// Total number of successful read operations.
    pub read_count: u64,
    /// Total number of successful write operations.
    pub write_count: u64,
    /// Total number of failed operations.
    pub error_count: u64,
}

/// A counter bumped by one, saturating at the maximum.
pub open spec fn bump(c: u64) -> u64 {
    if c == u64::MAX {
        c
    } else {
        (c + 1) as u64
    }
}

impl DeviceStats {
    /// Creates a statistics tracker with all counters at zero.
    pub fn new() -> (r: Self)
        ensures
            r.read_count == 0,
            r.write_count == 0,
            r.error_count == 0,
    {
        Self { read_count: 0, write_count: 0, error_count: 0 }
    }

    /// Records a successful read operation.
    pub fn record_read(&mut self)
        ensures
            *final(self) == (DeviceStats { read_count: bump(old(self).read_count), ..*old(self) }),
    {
        self.read_count = self.read_count.saturating_add(1);
    }

    /// Records a successful write operation.
    pub fn record_write(&mut self)
        ensures
            *final(self) == (DeviceStats { write_count: bump(old(self).write_count), ..*old(self) }),
    {
        self.write_count = self.write_count.saturating_add(1);
    }

    /// Records a failed operation.
    pub fn record_error(&mut self)
        ensures
            *final(self) == (DeviceStats { error_count: bump(old(self).error_count), ..*old(self) }),
    {
        self.error_count = self.error_count.saturating_add(1);
    }

    /// The total number of successful reads.
    pub fn reads(&self) -> (r: u64)
        ensures
            r == self.read_count,
    {
        self.read_count
    }

    /// The total number of successful writes.
    pub fn writes(&self) -> (r: u64)
        ensures
            r == self.write_count,
    {
        self.write_count
    }

    /// The total number of failed operations.
    pub fn errors(&self) -> (r: u64)
        ensures
            r == self.error_count,
    {
        self.error_count
    }

    /// The total number of successful operations, reads plus writes,
    /// saturating at the maximum.
    pub fn total_operations(&self) -> (r: u64)
        ensures
            self.read_count + self.write_count <= u64::MAX
                ==> r == self.read_count + self.write_count,
            self.read_count + self.write_count > u64::MAX ==> r == u64::MAX,
    {
        self.read_count.saturating_add(self.write_count)
    }
}

/// Wrapper around a device backend, adding lifecycle tracking, access
/// statistics and cached region metadata.
///
/// Every read or write runs under the access protocol: the lifecycle grants
/// an access only in the Active state, the backend is invoked, statistics
/// are updated, and the access is released.  The grant and the release
/// bracket the backend call, so the in-flight count is back where it started
/// when the call returns.
pub struct DeviceWrapper<D: BaseDeviceOps> {
    inner: D,
    lifecycle: DeviceLifecycle,
    id: DeviceId,
    stats: DeviceStats,
    cached_regions: Option<CachedRegions>,
}

impl<D: BaseDeviceOps> DeviceWrapper<D> {
    /// The wrapped backend.
    pub closed spec fn spec_inner(self) -> D {
        self.inner
    }

    /// The device id.
    pub closed spec fn spec_id(self) -> DeviceId {
        self.id
    }

    /// The access statistics.
    pub closed spec fn spec_stats(self) -> DeviceStats {
        self.stats
    }

    /// The lifecycle state.
    pub closed spec fn spec_state(self) -> DeviceState {
        self.lifecycle.spec_state()
    }

    /// The in-flight access count.
    pub closed spec fn spec_count(self) -> u32 {
        self.lifecycle.spec_count()
    }

    /// The cached region metadata, if the device declared any.
    pub closed spec fn spec_cached_regions(self) -> Option<CachedRegions> {
        self.cached_regions
    }

    /// Whether an access would be granted: the device is Active and the
    /// in-flight count is not saturated.
    pub open spec fn grants_access(self) -> bool {
        self.spec_state() == DeviceState::Active && self.spec_count() < COUNT_MASK
    }

    /// Creates a wrapper for a backend, caching its region metadata.
    pub fn new(id: DeviceId, device: D) -> (r: Self)
        ensures
            r.spec_id() == id,
            r.spec_inner() == device,
            r.spec_state() == DeviceState::Active,
            r.spec_count() == 0,
            r.spec_stats() == (DeviceStats { read_count: 0, write_count: 0, error_count: 0 }),
    {
        let cached_regions = match device.region_descriptor() {
            Some(desc) => Some(CachedRegions::from_descriptor(&desc)),
            None => None,
        };
        Self {
            inner: device,
            lifecycle: DeviceLifecycle::new(),
            id,
            stats: DeviceStats::new(),
            cached_regions,
        }
    }

    /// The device id.
    pub fn id(&self) -> (r: DeviceId)
        ensures
            r == self.spec_id(),
    {
        self.id
    }

    /// The device's address ranges, as the backend declares them.
    pub fn address_ranges(&self) -> Vec<crate::base::AddrRange> {
        self.inner.address_ranges()
    }

    /// The lifecycle tracker.
    pub fn lifecycle(&self) -> (r: &DeviceLifecycle)
        ensures
            r.spec_state() == self.spec_state(),
            r.spec_count() == self.spec_count(),
    {
        &self.lifecycle
    }

    /// The access statistics.
    pub fn stats(&self) -> (r: &DeviceStats)
        ensures
            *r == self.spec_stats(),
    {
        &self.stats
    }

    /// The wrapped backend.
    pub fn inner(&self) -> (r: &D)
        ensures
            *r == self.spec_inner(),
    {
        &self.inner
    }

    /// Looks up a region by address: the backend's fast path takes
    /// precedence, then the cached metadata; `None` when neither knows the
    /// address.
    ///
    /// What the backend's fast path answers is the backend's own business,
    /// so no more can be promised here; when the fast path declines and
    /// regions are cached, the answer is the cache's exact first-match
    /// lookup, whose contract lives on `CachedRegions::lookup`.
    pub fn lookup_region(&self, addr: usize) -> (r: Option<RegionHit>)
    {
        if let Some(hit) = self.inner.region_lookup(addr) {
            return Some(hit);
        }
        match &self.cached_regions {
            Some(cached) => cached.lookup(addr),
            None => None,
        }
    }

    /// Whether the device declared region metadata.
    pub fn has_regions(&self) -> (r: bool)
        ensures
            r == (self.spec_cached_regions() is Some),
    {
        self.cached_regions.is_some()
    }

    /// The cached region metadata, if any.
    pub fn cached_regions(&self) -> (r: Option<&CachedRegions>)
        ensures
            r is Some <==> self.spec_cached_regions() is Some,
            r is Some ==> *r->Some_0 == self.spec_cached_regions()->Some_0,
    {
        self.cached_regions.as_ref()
    }

    /// Performs a guarded read: grants an access, invokes the backend,
    /// records statistics and releases the access.
    ///
    /// Fails with `BadState`, recording an error and leaving the backend
    /// untouched, exactly when no access is granted.  Either way the
    /// lifecycle state and the in-flight count are back where they started
    /// on return, and exactly one statistics counter was bumped: reads on a
    /// successful backend read, errors otherwise.
    pub fn try_access_for_read(&mut self, addr: usize, width: AccessWidth)
        -> (r: Result<usize, DeviceError>)
        ensures
            final(self).spec_id() == old(self).spec_id(),
            final(self).spec_state() == old(self).spec_state(),
            final(self).spec_count() == old(self).spec_count(),
            final(self).spec_cached_regions() == old(self).spec_cached_regions(),
            !old(self).grants_access() ==> {
                &&& r == Err::<usize, DeviceError>(DeviceError::BadState)
                &&& final(self).spec_inner() == old(self).spec_inner()
                &&& final(self).spec_stats() == (DeviceStats {
                    error_count: bump(old(self).spec_stats().error_count),
                    ..old(self).spec_stats()
                })
            },
            old(self).grants_access() ==> {
                &&& r is Ok ==> final(self).spec_stats() == (DeviceStats {
                    read_count: bump(old(self).spec_stats().read_count),
                    ..old(self).spec_stats()
                })
                &&& r is Err ==> final(self).spec_stats() == (DeviceStats {
                    error_count: bump(old(self).spec_stats().error_count),
                    ..old(self).spec_stats()
                })
            },
    {
        if !self.lifecycle.try_begin_access() {
            self.stats.record_error();
            return Err(DeviceError::BadState);
        }

        let result = self.inner.handle_read(addr, width);

        match &result {
            Ok(_) => self.stats.record_read(),
            Err(_) => self.stats.record_error(),
        }

        self.lifecycle.end_access();
        result
    }

    /// Performs a guarded write: grants an access, invokes the backend,
    /// records statistics and releases the access.
    ///
    /// Fails with `BadState`, recording an error and leaving the backend
    /// untouched, exactly when no access is granted.  Either way the
    /// lifecycle state and the in-flight count are back where they started
    /// on return, and exactly one statistics counter was bumped: writes on a
    /// successful backend write, errors otherwise.
    pub fn try_access_for_write(&mut self, addr: usize, width: AccessWidth, val: usize)
        -> (r: Result<(), DeviceError>)
        ensures
            final(self).spec_id() == old(self).spec_id(),
            final(self).spec_state() == old(self).spec_state(),
            final(self).spec_count() == old(self).spec_count(),
            final(self).spec_cached_regions() == old(self).spec_cached_regions(),
            !old(self).grants_access() ==> {
                &&& r == Err::<(), DeviceError>(DeviceError::BadState)
                &&& final(self).spec_inner() == old(self).spec_inner()
                &&& final(self).spec_stats() == (DeviceStats {
                    error_count: bump(old(self).spec_stats().error_count),
                    ..old(self).spec_stats()
                })
            },
            old(self).grants_access() ==> {
                &&& r is Ok ==> final(self).spec_stats() == (DeviceStats {
                    write_count: bump(old(self).spec_stats().write_count),
                    ..old(self).spec_stats()
                })
                &&& r is Err ==> final(self).spec_stats() == (DeviceStats {
                    error_count: bump(old(self).spec_stats().error_count),
                    ..old(self).spec_stats()
                })
            },
    {
        if !self.lifecycle.try_begin_access() {
            self.stats.record_error();
            return Err(DeviceError::BadState);
        }

        let result = self.inner.handle_write(addr, width, val);

        match &result {
            Ok(_) => self.stats.record_write(),
            Err(_) => self.stats.record_error(),
        }

        self.lifecycle.end_access();
        result
    }

    /// Hands the backend its notifier.
    pub fn set_notifier(&mut self, notifier: crate::notifier::DeviceNotifierImpl)
        ensures
            final(self).spec_id() == old(self).spec_id(),
            final(self).spec_state() == old(self).spec_state(),
            final(self).spec_count() == old(self).spec_count(),
            final(self).spec_stats() == old(self).spec_stats(),
            final(self).spec_cached_regions() == old(self).spec_cached_regions(),
    {
        self.inner.set_notifier(notifier);
    }

    /// Begins the removal: Active goes to Removing; anything else is
    /// refused.  The in-flight count is preserved either way.
    pub fn begin_removal(&mut self) -> (r: bool)
        ensures
            r == (old(self).spec_state() == DeviceState::Active),
            r ==> final(self).spec_state() == DeviceState::Removing,
            !r ==> final(self).spec_state() == old(self).spec_state(),
            final(self).spec_count() == old(self).spec_count(),
            final(self).spec_id() == old(self).spec_id(),
            final(self).spec_stats() == old(self).spec_stats(),
            final(self).spec_inner() == old(self).spec_inner(),
            final(self).spec_cached_regions() == old(self).spec_cached_regions(),
    {
        self.lifecycle.begin_removal()
    }

    /// Waits for in-flight accesses to drain.
    ///
    /// Each guarded access releases before returning, so between wrapper
    /// calls the count is already zero.
    pub fn wait_idle(&mut self)
        requires
            old(self).spec_count() == 0,
        ensures
            final(self).spec_count() == 0,
            final(self).spec_state() == old(self).spec_state(),
            final(self).spec_id() == old(self).spec_id(),
            final(self).spec_stats() == old(self).spec_stats(),
            final(self).spec_inner() == old(self).spec_inner(),
            final(self).spec_cached_regions() == old(self).spec_cached_regions(),
    {
        self.lifecycle.wait_idle();
    }

    /// Completes the removal; legal only once the count has drained.
    pub fn complete_removal(&mut self)
        requires
            old(self).spec_count() == 0,
        ensures
            final(self).spec_state() == DeviceState::Removed,
            final(self).spec_count() == 0,
            final(self).spec_id() == old(self).spec_id(),
            final(self).spec_stats() == old(self).spec_stats(),
            final(self).spec_inner() == old(self).spec_inner(),
            final(self).spec_cached_regions() == old(self).spec_cached_regions(),
    {
        self.lifecycle.complete_removal();
    }

    /// Whether the device is Active.
    pub fn is_active(&self) -> (r: bool)
        ensures
            r == (self.spec_state() == DeviceState::Active),
    {
        self.lifecycle.state() == DeviceState::Active
    }

    /// Whether the device is being removed.
    pub fn is_removing(&self) -> (r: bool)
        ensures
            r == (self.spec_state() == DeviceState::Removing),
    {
        self.lifecycle.state() == DeviceState::Removing
    }

    /// Whether the device has been removed.
    pub fn is_removed(&self) -> (r: bool)
        ensures
            r == (self.spec_state() == DeviceState::Removed),
    {
        self.lifecycle.state() == DeviceState::Removed
    }
}

} // verus!
