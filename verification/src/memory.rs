//! The guest physical memory layout of a microVM: RAM from address zero,
//! with holes left for the 32-bit and 64-bit MMIO windows.
use vstd::prelude::*;

verus! {

/// Start of the 32-bit MMIO window (3 GiB).
pub const MMIO32_MEM_START: u64 = 0xc000_0000;
/// Size of the 32-bit MMIO window (1 GiB).
pub const MMIO32_MEM_SIZE: u64 = 0x4000_0000;
/// Start of the 64-bit MMIO window (256 GiB).
pub const MMIO64_MEM_START: u64 = 0x40_0000_0000;
/// Size of the 64-bit MMIO window (256 GiB).
pub const MMIO64_MEM_SIZE: u64 = 0x40_0000_0000;
/// Where the kernel is loaded (1 MiB).
pub const HIMEM_START: u64 = 0x10_0000;

/// The address where the kernel image starts.
pub fn get_kernel_start() -> (r: u64)
    ensures
        r == HIMEM_START,
{
    HIMEM_START
}

/// The kind of a guest memory region.
#[derive(Clone, Copy, Debug, PartialEq, Eq, Structural)]
pub enum GuestRegionType {
    /// Guest DRAM.
    Dram,
    /// Hotpluggable memory.
    Hotpluggable,
}

/// Lays out RAM of `size` bytes from `start` around the gap
/// `[gap_start, gap_start + gap_size)`: the part before the gap becomes a
/// region, and what is left, if anything, starts past the gap.
pub open spec fn with_gap(start: u64, size: u64, gap_start: u64, gap_size: u64) -> (Seq<(u64, u64)>, Option<(u64, u64)>) {
    let end = start + size;
    let past = (gap_start + gap_size) as u64;
    if end <= gap_start {
        (seq![(start, size)], None)
    } else if start < gap_start {
        (seq![(start, (gap_start - start) as u64)], Some((past, (end - gap_start) as u64)))
    } else {
        (Seq::empty(), Some((if past > start { past } else { start }, size)))
    }
}

/// Adds to `regions` the part of `[start, start + size)` that lies before
/// the gap and returns what is left past the gap (see [`with_gap`]).
pub fn arch_memory_regions_with_gap(
    regions: &mut Vec<(u64, u64)>,
    region_start: u64,
    region_size: u64,
    gap_start: u64,
    gap_size: u64,
) -> (r: Option<(u64, u64)>)
    requires
        gap_size > 0,
        region_start + region_size <= u64::MAX,
        gap_start + gap_size <= u64::MAX,
    ensures
        final(regions)@ == old(regions)@ + with_gap(region_start, region_size, gap_start, gap_size).0,
        r == with_gap(region_start, region_size, gap_start, gap_size).1,
{
    let first_addr_past_gap = gap_start + gap_size;
    let end = region_start + region_size;
    if end <= gap_start {
        regions.push((region_start, region_size));
        None
    } else if region_start < gap_start {
        regions.push((region_start, gap_start - region_start));
        Some((first_addr_past_gap, end - gap_start))
    } else {
        proof {
            assert(old(regions)@ + Seq::<(u64, u64)>::empty() =~= old(regions)@);
        }
        Some((if first_addr_past_gap > region_start { first_addr_past_gap } else { region_start }, region_size))
    }
}

/// The most RAM there can be: what the address space holds besides the two
/// MMIO windows.
pub open spec fn max_dram() -> u64 {
    (u64::MAX - MMIO32_MEM_SIZE - MMIO64_MEM_SIZE) as u64
}

/// The RAM actually laid out for a request of `size` bytes.
pub open spec fn dram_size(size: u64) -> u64 {
    if size < max_dram() {
        size
    } else {
        max_dram()
    }
}

/// The RAM regions for `size` bytes: from zero up to the 32-bit window, then
/// from its end up to the 64-bit window, then past it.
pub open spec fn memory_regions(size: u64) -> Seq<(u64, u64)> {
    let d = dram_size(size);
    let (r1, rest1) = with_gap(0, d, MMIO32_MEM_START, MMIO32_MEM_SIZE);
    match rest1 {
        None => r1,
        Some((s1, n1)) => {
            let (r2, rest2) = with_gap(s1, n1, MMIO64_MEM_START, MMIO64_MEM_SIZE);
            match rest2 {
                None => r1 + r2,
                Some((s2, n2)) => r1 + r2 + seq![(s2, n2)],
            }
        },
    }
}

/// The RAM regions of a microVM of `size` bytes, as (start, length) pairs
/// (see [`memory_regions`]).
pub fn arch_memory_regions(size: u64) -> (r: Vec<(u64, u64)>)
    requires
        size > 0,
    ensures
        r@ == memory_regions(size),
{
    let max = u64::MAX - MMIO32_MEM_SIZE - MMIO64_MEM_SIZE;
    let dram = if size < max { size } else { max };
    let mut regions: Vec<(u64, u64)> = Vec::new();
    let rest1 = arch_memory_regions_with_gap(&mut regions, 0, dram, MMIO32_MEM_START, MMIO32_MEM_SIZE);
    assert(regions@ =~= with_gap(0, dram, MMIO32_MEM_START, MMIO32_MEM_SIZE).0);
    if let Some((s1, n1)) = rest1 {
        let rest2 = arch_memory_regions_with_gap(&mut regions, s1, n1, MMIO64_MEM_START, MMIO64_MEM_SIZE);
        if let Some((s2, n2)) = rest2 {
            regions.push((s2, n2));
        }
    }
    regions
}

/// The total length of some regions.
pub open spec fn total_len(rs: Seq<(u64, u64)>) -> int
    decreases rs.len(),
{
    if rs.len() == 0 {
        0
    } else {
        total_len(rs.drop_last()) + rs.last().1
    }
}

proof fn lemma_total_len_small(rs: Seq<(u64, u64)>)
    ensures
        rs.len() == 1 ==> total_len(rs) == rs[0].1,
        rs.len() == 2 ==> total_len(rs) == rs[0].1 + rs[1].1,
        rs.len() == 3 ==> total_len(rs) == rs[0].1 + rs[1].1 + rs[2].1,
{
    reveal_with_fuel(total_len, 4);
    if rs.len() == 3 {
        assert(rs.drop_last().drop_last().drop_last() =~= Seq::<(u64, u64)>::empty());
    }
    if rs.len() == 2 {
        assert(rs.drop_last().drop_last() =~= Seq::<(u64, u64)>::empty());
    }
    if rs.len() == 1 {
        assert(rs.drop_last() =~= Seq::<(u64, u64)>::empty());
    }
}

/// Whether `[a, a + n)` and `[b, b + m)` do not meet.
pub open spec fn apart(a: int, n: int, b: int, m: int) -> bool {
    a + n <= b || b + m <= a
}

/// The RAM layout holds all the RAM asked for (up to the architectural
/// maximum), starts at address zero, its regions come in increasing order
/// without overlap, none is empty, and none meets an MMIO window.
pub proof fn lemma_memory_regions_layout(size: u64)
    requires
        size > 0,
    ensures
        total_len(memory_regions(size)) == dram_size(size),
        memory_regions(size).len() >= 1,
        memory_regions(size)[0].0 == 0,
        forall|i: int| 0 <= i < memory_regions(size).len() ==> (#[trigger] memory_regions(size)[i]).1 > 0,
        forall|i: int, j: int| 0 <= i < j < memory_regions(size).len() ==>
            memory_regions(size)[i].0 + memory_regions(size)[i].1 <= #[trigger] memory_regions(size)[j].0
            && #[trigger] memory_regions(size)[i].0 < memory_regions(size)[j].0,
        forall|i: int| 0 <= i < memory_regions(size).len() ==> apart(
            (#[trigger] memory_regions(size)[i]).0 as int, memory_regions(size)[i].1 as int,
            MMIO32_MEM_START as int, MMIO32_MEM_SIZE as int)
            && apart(memory_regions(size)[i].0 as int, memory_regions(size)[i].1 as int,
            MMIO64_MEM_START as int, MMIO64_MEM_SIZE as int),
{
    let rs = memory_regions(size);
    lemma_total_len_small(rs);
}

} // verus!
