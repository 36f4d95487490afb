//! Interrupt-line (GSI) allocation for a microVM, on top of the id
//! allocator of `vm-allocator`.
use vstd::prelude::*;
use vm_allocator::IdAllocator;

verus! {

#[verifier::external_type_specification]
#[verifier::external_body]
pub struct ExIdAllocator(IdAllocator);

/// The ids an allocator has handed out and not taken back.
pub uninterp spec fn id_allocated(a: IdAllocator) -> Set<u32>;

/// The inclusive range of ids an allocator manages, as it was made.
pub uninterp spec fn id_range(a: IdAllocator) -> (u32, u32);

/// Errors of the allocators.
#[derive(Debug, Clone, Copy, PartialEq, Eq, Structural)]
pub enum AllocatorError {
    Overflow,
    OutOfRange(u32),
    AlreadyReleased(u32),
    NeverAllocated(u32),
    ResourceNotAvailable,
    InvalidRange(u64, u64),
}

/// Whether `id` lies in the inclusive range `r`.
pub open spec fn in_id_range(r: (u32, u32), id: u32) -> bool {
    r.0 <= id <= r.1
}

/// Whether every id of the allocator's range is handed out.
pub open spec fn id_range_full(a: IdAllocator) -> bool {
    forall|j: u32| in_id_range(id_range(a), j) ==> #[trigger] id_allocated(a).contains(j)
}

/// The error an allocation meets on a full range: the allocator reports an
/// overflow when its range reaches `u32::MAX`, and otherwise that no id is
/// available.
pub open spec fn full_range_error(r: (u32, u32)) -> AllocatorError {
    if r.1 == u32::MAX {
        AllocatorError::Overflow
    } else {
        AllocatorError::ResourceNotAvailable
    }
}

/// `IdAllocator::new`: an allocator of the ids `base..=end`, none handed
/// out; refused with `InvalidRange` when `end < base`.
#[verifier::external_body]
fn new_id_allocator(base: u32, end: u32) -> (r: Result<IdAllocator, AllocatorError>)
    ensures
        r is Ok <==> base <= end,
        r matches Ok(a) ==> id_allocated(a) == Set::<u32>::empty() && id_range(a) == (base, end),
        r matches Err(e) ==> e == AllocatorError::InvalidRange(base as u64, end as u64),
{
    match IdAllocator::new(base, end) {
        Ok(a) => Ok(a),
        Err(_) => Err(AllocatorError::InvalidRange(base as u64, end as u64)),
    }
}

/// `IdAllocator::allocate_id`: hands out the least id of the range not
/// handed out (released ids are reused first, and every id above the
/// highest one ever handed out is free); fails, changing nothing, exactly
/// when the whole range is handed out.
#[verifier::external_body]
fn allocate_id(a: &mut IdAllocator) -> (r: Result<u32, AllocatorError>)
    ensures
        id_range(*final(a)) == id_range(*old(a)),
        r is Err <==> id_range_full(*old(a)),
        r matches Ok(id) ==> {
            &&& in_id_range(id_range(*old(a)), id)
            &&& !id_allocated(*old(a)).contains(id)
            &&& forall|j: u32| in_id_range(id_range(*old(a)), j) && j < id ==> #[trigger] id_allocated(*old(a)).contains(j)
            &&& id_allocated(*final(a)) == id_allocated(*old(a)).insert(id)
        },
        r matches Err(e) ==> e == full_range_error(id_range(*old(a))) && id_allocated(*final(a)) == id_allocated(*old(a)),
{
    match a.allocate_id() {
        Ok(id) => Ok(id),
        Err(vm_allocator::Error::Overflow) => Err(AllocatorError::Overflow),
        Err(_) => Err(AllocatorError::ResourceNotAvailable),
    }
}

/// `IdAllocator::free_id`: takes back a handed-out id and returns it.
/// Fails, changing nothing, for an id not handed out: `OutOfRange` outside
/// the range, and otherwise `NeverAllocated` or `AlreadyReleased`.
#[verifier::external_body]
fn free_id(a: &mut IdAllocator, id: u32) -> (r: Result<u32, AllocatorError>)
    ensures
        id_range(*final(a)) == id_range(*old(a)),
        r is Ok <==> id_allocated(*old(a)).contains(id),
        r matches Ok(v) ==> v == id && id_allocated(*final(a)) == id_allocated(*old(a)).remove(id),
        r matches Err(e) ==> {
            &&& id_allocated(*final(a)) == id_allocated(*old(a))
            &&& !in_id_range(id_range(*old(a)), id) ==> e == AllocatorError::OutOfRange(id)
            &&& in_id_range(id_range(*old(a)), id) ==> (e == AllocatorError::NeverAllocated(id)
                || e == AllocatorError::AlreadyReleased(id))
        },
{
    match a.free_id(id) {
        Ok(v) => Ok(v),
        Err(vm_allocator::Error::OutOfRange(x)) => Err(AllocatorError::OutOfRange(x)),
        Err(vm_allocator::Error::NeverAllocated(x)) => Err(AllocatorError::NeverAllocated(x)),
        Err(_) => Err(AllocatorError::AlreadyReleased(id)),
    }
}

/// Whether the ids in the range that `a` has not handed out all appear in
/// a list of fewer than `count` distinct ids: fewer than `count` are free.
pub open spec fn fewer_free_than(a: IdAllocator, count: nat) -> bool {
    exists|s: Seq<u32>|
        #![trigger s.no_duplicates()]
        s.len() < count && s.no_duplicates() && forall|j: u32|
            in_id_range(id_range(a), j) && !id_allocated(a).contains(j) ==> #[trigger] s.contains(j)
}

/// Allocates `count` ids, the `count` least free ones in increasing order.
/// When fewer are free, every id taken on the way is released again and
/// the allocation error is returned: the allocator is left as it was.
pub fn allocate_many_ids(id_allocator: &mut IdAllocator, count: u32) -> (r: Result<Vec<u32>, AllocatorError>)
    ensures
        id_range(*final(id_allocator)) == id_range(*old(id_allocator)),
        r matches Ok(ids) ==> {
            &&& ids@.len() == count
            &&& forall|k: int, l: int| 0 <= k < l < ids@.len() ==> ids@[k] < ids@[l]
            &&& forall|k: int| 0 <= k < ids@.len() ==> in_id_range(id_range(*old(id_allocator)), #[trigger] ids@[k])
                && !id_allocated(*old(id_allocator)).contains(ids@[k])
            &&& forall|j: u32| #![trigger id_allocated(*old(id_allocator)).contains(j)]
                in_id_range(id_range(*old(id_allocator)), j) && !id_allocated(*old(id_allocator)).contains(j)
                && ids@.len() > 0 && j < ids@.last() ==> ids@.contains(j)
            &&& id_allocated(*final(id_allocator)) == id_allocated(*old(id_allocator)) + ids@.to_set()
        },
        r matches Err(e) ==> {
            &&& id_allocated(*final(id_allocator)) == id_allocated(*old(id_allocator))
            &&& e == full_range_error(id_range(*old(id_allocator)))
            &&& fewer_free_than(*old(id_allocator), count as nat)
        },
{
    let ghost start = id_allocated(*id_allocator);
    let ghost range = id_range(*id_allocator);
    let mut ids: Vec<u32> = Vec::new();
    let mut i: u32 = 0;
    while i < count
        invariant
            i <= count,
            ids@.len() == i,
            range == id_range(*old(id_allocator)),
            start == id_allocated(*old(id_allocator)),
            id_range(*id_allocator) == range,
            forall|k: int, l: int| 0 <= k < l < ids@.len() ==> ids@[k] < ids@[l],
            forall|k: int| 0 <= k < ids@.len() ==> in_id_range(range, #[trigger] ids@[k]) && !start.contains(ids@[k]),
            forall|j: u32| #![trigger start.contains(j)]
                in_id_range(range, j) && !start.contains(j) && ids@.len() > 0 && j < ids@.last() ==> ids@.contains(j),
            id_allocated(*id_allocator) == start + ids@.to_set(),
        decreases count - i,
    {
        match allocate_id(id_allocator) {
            Ok(id) => {
                proof {
                    if ids@.len() > 0 {
                        let last = ids@.last();
                        if id < last {
                            assert(ids@.contains(id));
                            assert(ids@.to_set().contains(id));
                        }
                        assert(id != last) by {
                            assert(ids@.to_set().contains(last)) by {
                                assert(ids@.contains(last));
                            }
                        }
                    }
                }
                let ghost old_ids = ids@;
                ids.push(id);
                proof {
                    assert forall|j: u32| #![trigger start.contains(j)]
                        in_id_range(range, j) && !start.contains(j) && ids@.len() > 0 && j < ids@.last() implies ids@.contains(j) by {
                        if j != id {
                            assert(j < id);
                            assert((start + old_ids.to_set()).contains(j));
                            assert(old_ids.contains(j));
                            let w = choose|w: int| 0 <= w < old_ids.len() && old_ids[w] == j;
                            assert(ids@[w] == j);
                        } else {
                            assert(ids@[ids@.len() - 1] == j);
                        }
                    }
                    assert(start + ids@.to_set() =~= (start + old_ids.to_set()).insert(id)) by {
                        assert forall|x: u32| ids@.to_set().contains(x) <==> old_ids.to_set().contains(x) || x == id by {
                            if ids@.contains(x) && x != id {
                                let w = choose|w: int| 0 <= w < ids@.len() && ids@[w] == x;
                                assert(old_ids[w] == x);
                            }
                            if old_ids.contains(x) {
                                let w = choose|w: int| 0 <= w < old_ids.len() && old_ids[w] == x;
                                assert(ids@[w] == x);
                            }
                            if x == id {
                                assert(ids@[ids@.len() - 1] == x);
                            }
                        }
                    }
                }
                i = i + 1;
            },
            Err(err) => {
                proof {
                    assert(ids@.no_duplicates());
                    assert forall|j: u32| in_id_range(range, j) && !start.contains(j) implies #[trigger] ids@.contains(j) by {
                        assert(id_allocated(*id_allocator).contains(j));
                        assert(ids@.to_set().contains(j));
                    }
                    assert(fewer_free_than(*old(id_allocator), count as nat)) by {
                        assert(ids@.len() < count);
                    }
                }
                release_ids(id_allocator, &ids, Ghost(start));
                return Err(err);
            },
        }
    }
    Ok(ids)
}

/// Releases every id of `ids`, all handed out after the allocator held
/// exactly `start`: afterwards it holds `start` again.
fn release_ids(id_allocator: &mut IdAllocator, ids: &Vec<u32>, Ghost(start): Ghost<Set<u32>>)
    requires
        id_allocated(*old(id_allocator)) == start + ids@.to_set(),
        ids@.no_duplicates(),
        forall|k: int| 0 <= k < ids@.len() ==> !start.contains(#[trigger] ids@[k]),
    ensures
        id_allocated(*final(id_allocator)) == start,
        id_range(*final(id_allocator)) == id_range(*old(id_allocator)),
{
    let ghost range = id_range(*id_allocator);
    let mut k: usize = 0;
    assert(ids@.subrange(0, ids@.len() as int) =~= ids@);
    while k < ids.len()
        invariant
            k <= ids@.len(),
            ids@.no_duplicates(),
            forall|m: int| 0 <= m < ids@.len() ==> !start.contains(#[trigger] ids@[m]),
            id_range(*id_allocator) == range,
            id_allocated(*id_allocator) == start + ids@.subrange(k as int, ids@.len() as int).to_set(),
        decreases ids@.len() - k,
    {
        let id = ids[k];
        let ghost rest = ids@.subrange(k as int, ids@.len() as int);
        let ghost after = ids@.subrange(k as int + 1, ids@.len() as int);
        proof {
            assert(rest[0] == id);
            assert(rest.to_set().contains(id));
        }
        let freed = free_id(id_allocator, id);
        proof {
            assert(freed is Ok);
            assert(start + after.to_set() =~= (start + rest.to_set()).remove(id)) by {
                assert forall|x: u32| after.to_set().contains(x) <==> rest.to_set().contains(x) && x != id by {
                    if after.contains(x) {
                        let w = choose|w: int| 0 <= w < after.len() && after[w] == x;
                        assert(rest[w + 1] == x);
                        assert(ids@[k + 1 + w] == x);
                        assert(x != id);
                    }
                    if rest.contains(x) && x != id {
                        let w = choose|w: int| 0 <= w < rest.len() && rest[w] == x;
                        assert(w != 0);
                        assert(after[w - 1] == x);
                    }
                }
            }
        }
        k = k + 1;
    }
    proof {
        assert(ids@.subrange(ids@.len() as int, ids@.len() as int).to_set() =~= Set::<u32>::empty());
        assert(start + Set::<u32>::empty() =~= start);
    }
}

/// First GSI for legacy devices.
pub const GSI_LEGACY_START: u32 = 5;
/// Last GSI for legacy devices.
pub const GSI_LEGACY_END: u32 = 23;
/// First GSI for MSI.
pub const GSI_MSI_START: u32 = 24;
/// Last GSI for MSI.
pub const GSI_MSI_END: u32 = 4095;

/// The interrupt lines of a microVM.
pub struct ResourceAllocator {
    /// Allocator for legacy device interrupt lines.
    pub gsi_legacy_allocator: IdAllocator,
    /// Allocator for PCI device GSIs (MSI).
    pub gsi_msi_allocator: IdAllocator,
}

impl ResourceAllocator {
    /// Whether both allocators manage their fixed ranges.
    pub open spec fn wf(self) -> bool {
        &&& id_range(self.gsi_legacy_allocator) == (GSI_LEGACY_START, GSI_LEGACY_END)
        &&& id_range(self.gsi_msi_allocator) == (GSI_MSI_START, GSI_MSI_END)
    }

    /// A resource allocator with no interrupt line handed out.
    pub fn new() -> (r: Self)
        ensures
            r.wf(),
            id_allocated(r.gsi_legacy_allocator) == Set::<u32>::empty(),
            id_allocated(r.gsi_msi_allocator) == Set::<u32>::empty(),
    {
        let legacy = match new_id_allocator(GSI_LEGACY_START, GSI_LEGACY_END) {
            Ok(a) => a,
            Err(_) => unreached(),
        };
        let msi = match new_id_allocator(GSI_MSI_START, GSI_MSI_END) {
            Ok(a) => a,
            Err(_) => unreached(),
        };
        ResourceAllocator { gsi_legacy_allocator: legacy, gsi_msi_allocator: msi }
    }

    /// Allocates `gsi_count` legacy GSIs (see [`allocate_many_ids`]).
    pub fn allocate_gsi_legacy(&mut self, gsi_count: u32) -> (r: Result<Vec<u32>, AllocatorError>)
        ensures
            id_range(final(self).gsi_legacy_allocator) == id_range(old(self).gsi_legacy_allocator),
            final(self).gsi_msi_allocator == old(self).gsi_msi_allocator,
            r matches Ok(ids) ==> ids@.len() == gsi_count && id_allocated(final(self).gsi_legacy_allocator)
                == id_allocated(old(self).gsi_legacy_allocator) + ids@.to_set()
                && forall|k: int| 0 <= k < ids@.len() ==> !id_allocated(old(self).gsi_legacy_allocator).contains(
                #[trigger] ids@[k],
            ) && in_id_range(id_range(old(self).gsi_legacy_allocator), ids@[k]),
            r matches Err(e) ==> id_allocated(final(self).gsi_legacy_allocator) == id_allocated(old(self).gsi_legacy_allocator)
                && e == full_range_error(id_range(old(self).gsi_legacy_allocator))
                && fewer_free_than(old(self).gsi_legacy_allocator, gsi_count as nat),
    {
        allocate_many_ids(&mut self.gsi_legacy_allocator, gsi_count)
    }

    /// Allocates `gsi_count` MSI GSIs (see [`allocate_many_ids`]).
    pub fn allocate_gsi_msi(&mut self, gsi_count: u32) -> (r: Result<Vec<u32>, AllocatorError>)
        ensures
            id_range(final(self).gsi_msi_allocator) == id_range(old(self).gsi_msi_allocator),
            final(self).gsi_legacy_allocator == old(self).gsi_legacy_allocator,
            r matches Ok(ids) ==> ids@.len() == gsi_count && id_allocated(final(self).gsi_msi_allocator)
                == id_allocated(old(self).gsi_msi_allocator) + ids@.to_set()
                && forall|k: int| 0 <= k < ids@.len() ==> !id_allocated(old(self).gsi_msi_allocator).contains(
                #[trigger] ids@[k],
            ) && in_id_range(id_range(old(self).gsi_msi_allocator), ids@[k]),
            r matches Err(e) ==> id_allocated(final(self).gsi_msi_allocator) == id_allocated(old(self).gsi_msi_allocator)
                && e == full_range_error(id_range(old(self).gsi_msi_allocator))
                && fewer_free_than(old(self).gsi_msi_allocator, gsi_count as nat),
    {
        allocate_many_ids(&mut self.gsi_msi_allocator, gsi_count)
    }
}

} // verus!
