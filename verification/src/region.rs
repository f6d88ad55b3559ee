//! Region descriptors and the per-device region cache.
//!
//! A device exposes at most [`MAX_REGIONS_PER_DEVICE`] named sub-regions.
//! The cache copies the descriptors once at registration, so lookups on the
//! MMIO hot path touch only the fixed-size array; a version counter lets
//! callers that cache a hit revalidate after a region update.

use vstd::prelude::*;

verus! {

/// Largest number of sub-regions a single device may expose.
pub const MAX_REGIONS_PER_DEVICE: usize = 8;

/// Region id conventionally used for a device's control region.
pub const REGION_CONTROL: u32 = 0;

/// Region id conventionally used for a device's data region.
pub const REGION_DATA: u32 = 1;

/// Region id conventionally used for a device's status region.
pub const REGION_STATUS: u32 = 2;

/// Region id conventionally used for a device's configuration region.
pub const REGION_CONFIG: u32 = 3;

/// Classification of a device sub-region.
#[derive(Debug, Clone, Copy, PartialEq, Eq, Structural)]
pub enum RegionType {
    /// Control registers.
    Control,
    /// Data window.
    Data,
    /// Status registers.
    Status,
    /// Configuration space.
    Config,
}

/// Access permissions of a device sub-region.
#[derive(Debug, Clone, Copy, PartialEq, Eq, Structural)]
pub enum Permissions {
    /// Reads only.
    ReadOnly,
    /// Writes only.
    WriteOnly,
    /// Reads and writes.
    ReadWrite,
}

/// One named sub-region of a device.
#[derive(Debug, Clone, Copy, PartialEq, Eq)]
pub struct DeviceRegion {
    /// Small integer naming the region within its device.
    pub region_id: u32,
    /// Human-readable region name.
    pub name: &'static str,
    /// First address of the region.
    pub base_offset: usize,
    /// Length of the region in bytes.
    pub length: usize,
    /// Classification of the region.
    pub region_type: RegionType,
    /// Access permissions of the region.
    pub permissions: Permissions,
}

/// The stack value returned by a region lookup.
#[derive(Debug, Clone, Copy, PartialEq, Eq, Structural)]
pub struct RegionHit {
    /// The id of the region that was hit.
    pub region_id: u32,
    /// Offset of the address within the region.
    pub offset: usize,
    /// Classification of the region.
    pub region_type: RegionType,
    /// Access permissions of the region.
    pub permissions: Permissions,
}

impl DeviceRegion {
    /// Whether the region contains an address.
    pub open spec fn spec_contains(self, addr: usize) -> bool {
        self.base_offset <= addr < self.base_offset + self.length
    }

    /// The hit value for an address inside this region.
    pub open spec fn spec_hit(self, addr: usize) -> RegionHit {
        RegionHit {
            region_id: self.region_id,
            offset: (addr - self.base_offset) as usize,
            region_type: self.region_type,
            permissions: self.permissions,
        }
    }

    /// Creates a region with default type `Control` and permissions
    /// `ReadWrite`.
    pub fn new(region_id: u32, name: &'static str, base_offset: usize, length: usize) -> (r: Self)
        ensures
            r == (DeviceRegion {
                region_id,
                name,
                base_offset,
                length,
                region_type: RegionType::Control,
                permissions: Permissions::ReadWrite,
            }),
    {
        Self {
            region_id,
            name,
            base_offset,
            length,
            region_type: RegionType::Control,
            permissions: Permissions::ReadWrite,
        }
    }

    /// Replaces the region type.
    pub fn with_type(self, region_type: RegionType) -> (r: Self)
        ensures
            r == (DeviceRegion { region_type, ..self }),
    {
        Self { region_type, ..self }
    }

    /// Replaces the permissions.
    pub fn with_permissions(self, permissions: Permissions) -> (r: Self)
        ensures
            r == (DeviceRegion { permissions, ..self }),
    {
        Self { permissions, ..self }
    }

    /// Returns the hit for an address, or `None` when the address lies
    /// outside the region.
    pub fn try_hit(&self, addr: usize) -> (r: Option<RegionHit>)
        ensures
            self.spec_contains(addr) ==> r == Some(self.spec_hit(addr)),
            !self.spec_contains(addr) ==> r is None,
    {
        if self.base_offset <= addr && addr - self.base_offset < self.length {
            Some(RegionHit {
                region_id: self.region_id,
                offset: addr - self.base_offset,
                region_type: self.region_type,
                permissions: self.permissions,
            })
        } else {
            None
        }
    }
}

/// Multi-region metadata a device hands over once at registration.
pub struct RegionDescriptor {
    regions: Vec<DeviceRegion>,
}

impl RegionDescriptor {
    /// The declared regions, in declaration order.
    pub closed spec fn spec_regions(self) -> Seq<DeviceRegion> {
        self.regions@
    }

    /// Creates an empty descriptor.
    pub fn new() -> (r: Self)
        ensures
            r.spec_regions() =~= Seq::<DeviceRegion>::empty(),
    {
        Self { regions: Vec::new() }
    }

    /// Appends a region to the descriptor.
    pub fn with_region(self, region: DeviceRegion) -> (r: Self)
        requires
            self.spec_regions().len() < MAX_REGIONS_PER_DEVICE,
        ensures
            r.spec_regions() =~= self.spec_regions().push(region),
    {
        let mut regions = self.regions;
        regions.push(region);
        Self { regions }
    }

    /// The declared regions.
    pub fn regions(&self) -> (r: &[DeviceRegion])
        ensures
            r@ == self.spec_regions(),
    {
        self.regions.as_slice()
    }

    /// The number of declared regions.
    pub fn len(&self) -> (r: usize)
        ensures
            r == self.spec_regions().len(),
    {
        self.regions.len()
    }
}

/// The first region of a list that contains the address, as a hit.
pub open spec fn spec_lookup(regions: Seq<DeviceRegion>, addr: usize) -> Option<RegionHit>
    decreases regions.len(),
{
    if regions.len() == 0 {
        None
    } else if regions[0].spec_contains(addr) {
        Some(regions[0].spec_hit(addr))
    } else {
        spec_lookup(regions.skip(1), addr)
    }
}

/// Law: region lookup is exact.  The lookup of an address over a region list
/// misses exactly when no region contains the address, and a hit is the hit
/// of the first region in declaration order that contains the address.
pub proof fn lemma_lookup_correct(regions: Seq<DeviceRegion>, addr: usize)
    ensures
        spec_lookup(regions, addr) is None
            <==> forall|i: int| 0 <= i < regions.len() ==> !regions[i].spec_contains(addr),
        spec_lookup(regions, addr) is Some
            ==> exists|i: int| 0 <= i < regions.len()
                && regions[i].spec_contains(addr)
                && spec_lookup(regions, addr) == Some(regions[i].spec_hit(addr))
                && forall|j: int| 0 <= j < i ==> !regions[j].spec_contains(addr),
    decreases regions.len(),
{
    if regions.len() > 0 && !regions[0].spec_contains(addr) {
        lemma_lookup_correct(regions.skip(1), addr);
        assert(forall|i: int| 0 <= i < regions.skip(1).len()
            ==> regions.skip(1)[i] == regions[i + 1]);
        if spec_lookup(regions, addr) is None {
            assert forall|i: int| 0 <= i < regions.len()
                implies !regions[i].spec_contains(addr) by {
                if i > 0 {
                    assert(regions.skip(1)[i - 1] == regions[i]);
                }
            }
        } else {
            let i = choose|i: int| 0 <= i < regions.skip(1).len()
                && regions.skip(1)[i].spec_contains(addr)
                && spec_lookup(regions.skip(1), addr) == Some(regions.skip(1)[i].spec_hit(addr))
                && forall|j: int| 0 <= j < i ==> !regions.skip(1)[j].spec_contains(addr);
            assert(regions[i + 1].spec_contains(addr));
            assert(spec_lookup(regions, addr) == Some(regions[i + 1].spec_hit(addr)));
            assert(forall|j: int| 0 <= j < i + 1 ==> !regions[j].spec_contains(addr)) by {
                assert(forall|j: int| 1 <= j < i + 1
                    ==> regions[j] == regions.skip(1)[j - 1]);
            }
        }
        if forall|i: int| 0 <= i < regions.len() ==> !regions[i].spec_contains(addr) {
            assert(forall|i: int| 0 <= i < regions.skip(1).len()
                ==> !regions.skip(1)[i].spec_contains(addr));
            assert(spec_lookup(regions.skip(1), addr) is None);
        }
    }
}

/// Helper: a lookup ignores a prefix of regions that do not contain the
/// address.
proof fn lemma_lookup_skip(regions: Seq<DeviceRegion>, addr: usize, i: int)
    requires
        0 <= i <= regions.len(),
        forall|j: int| 0 <= j < i ==> !regions[j].spec_contains(addr),
    ensures
        spec_lookup(regions, addr) == spec_lookup(regions.skip(i), addr),
    decreases i,
{
    if i > 0 {
        assert(regions.skip(1).skip(i - 1) =~= regions.skip(i));
        lemma_lookup_skip(regions.skip(1), addr, i - 1);
    } else {
        assert(regions.skip(0) =~= regions);
    }
}

/// Cached region information for a device.
///
/// The cache is immutable between `update` calls; `update` rewrites the whole
/// array and bumps the version so callers can revalidate cached hits.
pub struct CachedRegions {
    regions: Vec<DeviceRegion>,
    version: u32,
}

impl CachedRegions {
    /// The cached regions, in declaration order.
    pub closed spec fn spec_regions(self) -> Seq<DeviceRegion> {
        self.regions@
    }

    /// The cache version.
    pub closed spec fn spec_version(self) -> u32 {
        self.version
    }

    /// The cache never holds more regions than a device may declare.
    pub open spec fn wf(self) -> bool {
        self.spec_regions().len() <= MAX_REGIONS_PER_DEVICE
    }

    /// Creates an empty cache.
    pub fn new() -> (r: Self)
        ensures
            r.spec_regions() =~= Seq::<DeviceRegion>::empty(),
            r.spec_version() == 0,
            r.wf(),
    {
        Self { regions: Vec::new(), version: 0 }
    }

    /// Copies the regions of a descriptor into a fresh cache at version 0.
    pub fn from_descriptor(desc: &RegionDescriptor) -> (r: Self)
        requires
            desc.spec_regions().len() <= MAX_REGIONS_PER_DEVICE,
        ensures
            r.spec_regions() == desc.spec_regions(),
            r.spec_version() == 0,
            r.wf(),
    {
        let mut regions: Vec<DeviceRegion> = Vec::new();
        let source = desc.regions();
        let mut i: usize = 0;
        while i < source.len()
            invariant
                i <= source.len(),
                regions@ =~= source@.take(i as int),
            decreases source.len() - i,
        {
            regions.push(source[i]);
            i = i + 1;
        }
        proof {
            assert(regions@ =~= source@);
        }
        Self { regions, version: 0 }
    }

    /// Looks up an address in the cached regions.
    ///
    /// The first region in declaration order that contains the address wins;
    /// the result is `None` exactly when no cached region contains the
    /// address.
    pub fn lookup(&self, addr: usize) -> (r: Option<RegionHit>)
        ensures
            r == spec_lookup(self.spec_regions(), addr),
    {
        let ghost all = self.spec_regions();
        let mut i: usize = 0;
        while i < self.regions.len()
            invariant
                i <= self.regions.len(),
                all == self.spec_regions(),
                forall|j: int| 0 <= j < i ==> !all[j].spec_contains(addr),
            decreases self.regions.len() - i,
        {
            let hit = self.regions[i].try_hit(addr);
            if hit.is_some() {
                proof {
                    lemma_lookup_skip(all, addr, i as int);
                    assert(all.skip(i as int)[0] == all[i as int]);
                }
                return hit;
            }
            i = i + 1;
        }
        proof {
            lemma_lookup_skip(all, addr, i as int);
        }
        None
    }

    /// The number of cached regions.
    pub fn len(&self) -> (r: usize)
        ensures
            r == self.spec_regions().len(),
    {
        self.regions.len()
    }

    /// Whether the cache holds no regions.
    pub fn is_empty(&self) -> (r: bool)
        ensures
            r == (self.spec_regions().len() == 0),
    {
        self.regions.len() == 0
    }

    /// The current cache version.
    pub fn version(&self) -> (r: u32)
        ensures
            r == self.spec_version(),
    {
        self.version
    }

    /// Replaces the cached regions with the descriptor's and bumps the
    /// version; the version wraps to zero at its maximum.
    pub fn update(&mut self, desc: &RegionDescriptor)
        requires
            desc.spec_regions().len() <= MAX_REGIONS_PER_DEVICE,
        ensures
            final(self).spec_regions() == desc.spec_regions(),
            old(self).spec_version() < u32::MAX
                ==> final(self).spec_version() == old(self).spec_version() + 1,
            old(self).spec_version() == u32::MAX ==> final(self).spec_version() == 0,
            final(self).wf(),
    {
        self.regions.clear();
        let source = desc.regions();
        let mut i: usize = 0;
        while i < source.len()
            invariant
                i <= source.len(),
                self.regions@ =~= source@.take(i as int),
                self.version == old(self).spec_version(),
            decreases source.len() - i,
        {
            self.regions.push(source[i]);
            i = i + 1;
        }
        proof {
            assert(self.regions@ =~= source@);
        }
        if self.version == u32::MAX {
            self.version = 0;
        } else {
            self.version = self.version + 1;
        }
    }

    /// The cached regions.
    pub fn regions(&self) -> (r: &[DeviceRegion])
        ensures
            r@ == self.spec_regions(),
    {
        self.regions.as_slice()
    }
}

} // verus!
