//! Where the initrd goes in guest memory: at the top of the region that
//! starts at guest address zero, page aligned.
use vstd::prelude::*;

verus! {

/// `memory_addr::PAGE_SIZE_4K`, the size of a small page.
#[verifier::external_body]
pub(crate) fn page_size_4k() -> (r: usize)
    ensures
        r == 0x1000,
{
    memory_addr::PAGE_SIZE_4K
}

/// `memory_addr::align_down`: as its documentation says, the greatest
/// multiple of `align` that is at most `addr`, for a power-of-two `align`.
#[verifier::external_body]
fn align_down(addr: usize, align: usize) -> (r: usize)
    requires
        align > 0,
        align & (align - 1) as usize == 0,
    ensures
        r <= addr,
        r % align == 0,
        addr - r < align,
{
    memory_addr::align_down(addr, align)
}

/// The region holding guest address zero, as `(start, len)`, if any.
pub open spec fn zero_region(regions: Seq<(u64, u64)>) -> Option<(u64, u64)> {
    if exists|i: int| 0 <= i < regions.len() && holds_zero(#[trigger] regions[i]) {
        Some(regions[first_zero_region(regions)])
    } else {
        None
    }
}

pub open spec fn holds_zero(r: (u64, u64)) -> bool {
    r.0 == 0 && r.1 > 0
}

/// The index of the first region holding address zero.
pub open spec fn first_zero_region(regions: Seq<(u64, u64)>) -> int {
    choose|i: int| 0 <= i < regions.len() && holds_zero(regions[i]) && forall|j: int|
        0 <= j < i ==> !holds_zero(#[trigger] regions[j])
}

/// The load address of an initrd of `size` bytes: the highest 4 KiB
/// aligned address at which it ends within the low region, or `None` when
/// there is no low region or the initrd does not fit in it. (The region's
/// length is taken as a `usize`.)
pub open spec fn initrd_addr(regions: Seq<(u64, u64)>, size: usize) -> Option<u64> {
    match zero_region(regions) {
        None => None,
        Some(r) => if (r.1 as usize) < size {
            None
        } else {
            let top = (r.1 as usize) - size;
            Some((top - top % 0x1000) as u64)
        },
    }
}

proof fn lemma_first_zero_region(regions: Seq<(u64, u64)>, i: int)
    requires
        0 <= i < regions.len(),
        holds_zero(regions[i]),
        forall|j: int| 0 <= j < i ==> !holds_zero(#[trigger] regions[j]),
    ensures
        first_zero_region(regions) == i,
{
    let k = first_zero_region(regions);
    assert(0 <= k < regions.len() && holds_zero(regions[k]) && forall|j: int| 0 <= j < k ==> !holds_zero(#[trigger] regions[j]));
    if k < i {
        assert(!holds_zero(regions[k]));
    }
    if i < k {
        assert(!holds_zero(regions[i]));
    }
}

/// Returns the guest address where an initrd of `initrd_size` bytes is
/// loaded, given the guest memory regions as `(start, len)`.
pub fn initrd_load_addr(regions: &Vec<(u64, u64)>, initrd_size: usize) -> (r: Option<u64>)
    ensures
        r == initrd_addr(regions@, initrd_size),
{
    let mut i: usize = 0;
    while i < regions.len()
        invariant
            i <= regions@.len(),
            forall|j: int| 0 <= j < i ==> !holds_zero(#[trigger] regions@[j]),
        decreases regions@.len() - i,
    {
        let (start, len) = regions[i];
        if start == 0 && len > 0 {
            proof {
                lemma_first_zero_region(regions@, i as int);
            }
            let lowmem_size = crate::utils::u64_to_usize(len);
            if lowmem_size < initrd_size {
                return None;
            }
            let page = page_size_4k();
            assert(page & (page - 1) as usize == 0) by (bit_vector)
                requires
                    page == 0x1000,
            ;
            let a = align_down(lowmem_size - initrd_size, page);
            return Some(a as u64);
        }
        i = i + 1;
    }
    None
}

/// The initrd's place: aligned to 4 KiB, and wholly inside the low region,
/// within a page of its top.
pub proof fn lemma_initrd_placement(regions: Seq<(u64, u64)>, size: usize)
    requires
        initrd_addr(regions, size) is Some,
    ensures
        ({
            let a = initrd_addr(regions, size)->Some_0;
            let low = zero_region(regions)->Some_0;
            &&& a % 0x1000 == 0
            &&& a + size <= low.1 as usize
            &&& (low.1 as usize) - (a + size) < 0x1000
        }),
{
}

} // verus!
