//! Range allocator for inter-VM shared-memory channels.
//!
//! The allocator serves page-aligned channel sizes out of one configured
//! region.  Live allocations are kept sorted by address and never overlap;
//! allocation is first fit, so a request fails with `NoMemory` only when no
//! gap anywhere in the region could hold it.

use vstd::prelude::*;
use vstd::seq_lib::group_to_multiset_ensures;

use crate::errors::DeviceError;

verus! {

/// Granularity of channel sizes, in bytes.
pub const IVC_ALIGN: usize = 4096;

/// Whether an allocation list is well formed for a region: sorted by
/// address, gap-free correctness ordering, every entry page-sized and inside
/// the region.
pub open spec fn allocs_wf(base: usize, length: usize, allocs: Seq<(usize, usize)>) -> bool {
    &&& base + length <= usize::MAX
    &&& forall|i: int| 0 <= i < allocs.len() ==> {
        &&& base <= (#[trigger] allocs[i]).0
        &&& allocs[i].0 + allocs[i].1 <= base + length
        &&& allocs[i].1 >= 1
        &&& allocs[i].1 % IVC_ALIGN == 0
    }
    &&& forall|i: int| 0 <= i < allocs.len() - 1
        ==> (#[trigger] allocs[i]).0 + allocs[i].1 <= allocs[i + 1].0
}

/// Whether a channel placed at `addr` with the given size would lie inside
/// the region and clear of every live allocation.
pub open spec fn placement_ok(
    base: usize,
    length: usize,
    allocs: Seq<(usize, usize)>,
    addr: usize,
    size: usize,
) -> bool {
    &&& base <= addr
    &&& addr + size <= base + length
    &&& forall|i: int| 0 <= i < allocs.len()
        ==> (#[trigger] allocs[i]).0 + allocs[i].1 <= addr || addr + size <= allocs[i].0
}

/// Law: distinct live allocations never overlap.  In a sorted allocation
/// list each entry ends before the next begins, so any two entries are
/// disjoint.
pub proof fn lemma_allocations_disjoint(
    base: usize,
    length: usize,
    allocs: Seq<(usize, usize)>,
    i: int,
    j: int,
)
    requires
        allocs_wf(base, length, allocs),
        0 <= i < j < allocs.len(),
    ensures
        allocs[i].0 + allocs[i].1 <= allocs[j].0,
    decreases j - i,
{
    if j > i + 1 {
        lemma_allocations_disjoint(base, length, allocs, i, j - 1);
    }
}

/// Law: releasing a channel reopens its slot.  Once an allocation is
/// removed from a well-formed list, placing a channel of the same size at
/// its old address is legal again, so an allocation of that size is owed
/// success.
pub proof fn lemma_freed_slot_fits(
    base: usize,
    length: usize,
    allocs: Seq<(usize, usize)>,
    i: int,
)
    requires
        allocs_wf(base, length, allocs),
        0 <= i < allocs.len(),
    ensures
        placement_ok(base, length, allocs.remove(i), allocs[i].0, allocs[i].1),
{
    let addr = allocs[i].0;
    let size = allocs[i].1;
    assert forall|k: int| 0 <= k < allocs.remove(i).len()
        implies (#[trigger] allocs.remove(i)[k]).0 + allocs.remove(i)[k].1 <= addr
            || addr + size <= allocs.remove(i)[k].0 by {
        if k < i {
            assert(allocs.remove(i)[k] == allocs[k]);
            lemma_allocations_disjoint(base, length, allocs, k, i);
        } else {
            assert(allocs.remove(i)[k] == allocs[k + 1]);
            lemma_allocations_disjoint(base, length, allocs, i, k + 1);
        }
    }
}

/// Allocator for inter-VM channel addresses over `[base, base + length)`.
pub struct IvcAllocator {
    base: usize,
    length: usize,
    allocs: Vec<(usize, usize)>,
}

impl IvcAllocator {
    /// First address of the governed region.
    pub closed spec fn spec_base(self) -> usize {
        self.base
    }

    /// Length of the governed region in bytes.
    pub closed spec fn spec_length(self) -> usize {
        self.length
    }

    /// The live allocations as `(address, size)`, sorted by address.
    pub closed spec fn allocations(self) -> Seq<(usize, usize)> {
        self.allocs@
    }

    /// Well-formedness of the allocator.
    pub open spec fn wf(self) -> bool {
        allocs_wf(self.spec_base(), self.spec_length(), self.allocations())
    }

    /// Creates an allocator over `[base, base + length)` with no live
    /// allocations.
    pub fn new(base: usize, length: usize) -> (r: Self)
        requires
            base + length <= usize::MAX,
        ensures
            r.wf(),
            r.spec_base() == base,
            r.spec_length() == length,
            r.allocations() =~= Seq::<(usize, usize)>::empty(),
    {
        Self { base, length, allocs: Vec::new() }
    }

    /// Allocates a channel of the given size, first fit.
    ///
    /// Fails with `InvalidInput` when the size is zero or not page aligned,
    /// and with `NoMemory` exactly when no gap in the region can hold the
    /// size; a failed allocation changes nothing.  A successful allocation
    /// returns an address whose channel lies inside the region and clear of
    /// every other live allocation.
    pub fn allocate(&mut self, size: usize) -> (r: Result<usize, DeviceError>)
        requires
            old(self).wf(),
        ensures
            final(self).wf(),
            final(self).spec_base() == old(self).spec_base(),
            final(self).spec_length() == old(self).spec_length(),
            size == 0 || size % IVC_ALIGN != 0 ==> r == Err::<usize, DeviceError>(
                DeviceError::InvalidInput,
            ) && *final(self) == *old(self),
            size >= 1 && size % IVC_ALIGN == 0 ==> {
                &&& r is Err ==> r == Err::<usize, DeviceError>(DeviceError::NoMemory)
                    && *final(self) == *old(self)
                    && forall|addr: usize| !placement_ok(
                        old(self).spec_base(),
                        old(self).spec_length(),
                        old(self).allocations(),
                        addr,
                        size,
                    )
                &&& r is Ok ==> {
                    let addr = r->Ok_0;
                    &&& placement_ok(
                        old(self).spec_base(),
                        old(self).spec_length(),
                        old(self).allocations(),
                        addr,
                        size,
                    )
                    &&& final(self).allocations().to_multiset()
                        == old(self).allocations().to_multiset().insert((addr, size))
                }
            },
    {
        if size == 0 {
            return Err(DeviceError::InvalidInput);
        }
        if size % IVC_ALIGN != 0 {
            return Err(DeviceError::InvalidInput);
        }

        proof {
            broadcast use group_to_multiset_ensures;
        }

        let n = self.allocs.len();
        let mut candidate: usize = self.base;
        let mut i: usize = 0;
        while i < n
            invariant
                *self == *old(self),
                old(self).wf(),
                n == self.allocs@.len(),
                i <= n,
                size >= 1,
                size % IVC_ALIGN == 0,
                self.base <= candidate,
                candidate <= self.base + self.length,
                i < n ==> candidate <= self.allocs@[i as int].0,
                forall|k: int| 0 <= k < i
                    ==> (#[trigger] self.allocs@[k]).0 + self.allocs@[k].1 <= candidate,
                forall|addr: usize| addr < candidate ==> !placement_ok(
                    self.base,
                    self.length,
                    self.allocs@,
                    addr,
                    size,
                ),
            decreases n - i,
        {
            let next_start = self.allocs[i].0;
            if size <= next_start - candidate {
                // The gap before this allocation holds the request.
                let addr = candidate;
                proof {
                    assert forall|k: int| 0 <= k < self.allocs@.len()
                        implies (#[trigger] self.allocs@[k]).0 + self.allocs@[k].1 <= addr
                            || addr + size <= self.allocs@[k].0 by {
                        if k >= i {
                            if k > i {
                                lemma_allocations_disjoint(
                                    self.base,
                                    self.length,
                                    self.allocs@,
                                    i as int,
                                    k,
                                );
                            }
                        }
                    }
                    assert(placement_ok(self.base, self.length, self.allocs@, addr, size));
                }
                let ghost allocs0 = self.allocs@;
                self.allocs.insert(i, (addr, size));
                proof {
                    vstd::seq_lib::to_multiset_insert(allocs0, i as int, (addr, size));
                    assert forall|k: int| 0 <= k < self.allocs@.len() - 1
                        implies (#[trigger] self.allocs@[k]).0 + self.allocs@[k].1
                            <= self.allocs@[k + 1].0 by {
                        if k + 1 < i {
                            assert(self.allocs@[k] == allocs0[k]);
                            assert(self.allocs@[k + 1] == allocs0[k + 1]);
                        } else if k + 1 == i {
                            assert(self.allocs@[k] == allocs0[k]);
                            assert(self.allocs@[k + 1] == (addr, size));
                        } else if k == i {
                            assert(self.allocs@[k] == (addr, size));
                            assert(self.allocs@[k + 1] == allocs0[k]);
                        } else {
                            assert(self.allocs@[k] == allocs0[k - 1]);
                            assert(self.allocs@[k + 1] == allocs0[k]);
                        }
                    }
                }
                return Ok(addr);
            }
            proof {
                let bound = self.allocs@[i as int].0 + self.allocs@[i as int].1;
                assert forall|addr: usize| addr < bound implies !placement_ok(
                    self.base,
                    self.length,
                    self.allocs@,
                    addr,
                    size,
                ) by {
                    if addr >= candidate && placement_ok(
                        self.base,
                        self.length,
                        self.allocs@,
                        addr,
                        size,
                    ) {
                        assert(self.allocs@[i as int].0 + self.allocs@[i as int].1 <= addr
                            || addr + size <= self.allocs@[i as int].0);
                    }
                }
            }
            candidate = self.allocs[i].0 + self.allocs[i].1;
            i = i + 1;
        }

        if size <= (self.base + self.length) - candidate {
            let addr = candidate;
            proof {
                assert(placement_ok(self.base, self.length, self.allocs@, addr, size));
                let ghost allocs0 = self.allocs@;
            }
            let ghost allocs0 = self.allocs@;
            self.allocs.push((addr, size));
            proof {
                assert(self.allocs@.drop_last() =~= allocs0);
            }
            Ok(addr)
        } else {
            proof {
                assert forall|addr: usize| !placement_ok(
                    self.base,
                    self.length,
                    self.allocs@,
                    addr,
                    size,
                ) by {
                    if addr < candidate {
                    } else if placement_ok(self.base, self.length, self.allocs@, addr, size) {
                        assert(addr + size <= self.base + self.length);
                        assert(candidate + size <= self.base + self.length);
                    }
                }
            }
            Err(DeviceError::NoMemory)
        }
    }

    /// Releases a channel that matches a prior allocation exactly.
    ///
    /// Fails with `InvalidInput`, changing nothing, exactly when no live
    /// allocation matches `(addr, size)`.
    pub fn release(&mut self, addr: usize, size: usize) -> (r: Result<(), DeviceError>)
        requires
            old(self).wf(),
        ensures
            final(self).wf(),
            final(self).spec_base() == old(self).spec_base(),
            final(self).spec_length() == old(self).spec_length(),
            !old(self).allocations().contains((addr, size))
                ==> r == Err::<(), DeviceError>(DeviceError::InvalidInput)
                    && *final(self) == *old(self),
            old(self).allocations().contains((addr, size)) ==> {
                &&& r is Ok
                &&& final(self).allocations().to_multiset()
                    == old(self).allocations().to_multiset().remove((addr, size))
            },
    {
        proof {
            broadcast use group_to_multiset_ensures;
        }
        let n = self.allocs.len();
        let mut i: usize = 0;
        while i < n
            invariant
                old(self).wf(),
                *self == *old(self),
                n == self.allocs@.len(),
                i <= n,
                forall|k: int| 0 <= k < i ==> #[trigger] self.allocs@[k] != (addr, size),
            decreases n - i,
        {
            let entry = self.allocs[i];
            if entry.0 == addr && entry.1 == size {
                let ghost allocs0 = self.allocs@;
                let _ = self.allocs.remove(i);
                proof {
                    vstd::seq_lib::to_multiset_remove(allocs0, i as int);
                    assert forall|k: int| 0 <= k < self.allocs@.len() - 1
                        implies (#[trigger] self.allocs@[k]).0 + self.allocs@[k].1
                            <= self.allocs@[k + 1].0 by {
                        if k + 1 < i {
                            assert(self.allocs@[k] == allocs0[k]);
                            assert(self.allocs@[k + 1] == allocs0[k + 1]);
                        } else if k + 1 == i {
                            assert(self.allocs@[k] == allocs0[k]);
                            assert(self.allocs@[k + 1] == allocs0[k + 2]);
                            lemma_allocations_disjoint(
                                old(self).spec_base(),
                                old(self).spec_length(),
                                allocs0,
                                k,
                                k + 2,
                            );
                        } else {
                            assert(self.allocs@[k] == allocs0[k + 1]);
                            assert(self.allocs@[k + 1] == allocs0[k + 2]);
                        }
                    }
                    assert(allocs0.contains((addr, size)));
                }
                return Ok(());
            }
            i = i + 1;
        }
        proof {
            assert forall|j: int| 0 <= j < self.allocs@.len()
                implies #[trigger] self.allocs@[j] != (addr, size) by {}
            assert(!self.allocations().contains((addr, size)));
        }
        Err(DeviceError::InvalidInput)
    }

    /// The number of live allocations.
    pub fn allocation_count(&self) -> (r: usize)
        ensures
            r == self.allocations().len(),
    {
        self.allocs.len()
    }
}

} // verus!
