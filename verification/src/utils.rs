//! Integer conversions shared by the rest of the library.
use vstd::prelude::*;

verus! {

/// How many bits to left-shift by to convert MiB to bytes.
pub const MIB_TO_BYTES_SHIFT: usize = 20;

/// Number of bytes in one MiB.
pub open spec fn spec_mib(mib: int) -> int {
    mib * 0x10_0000
}

/// Converts a `u64` to a `usize`; the value is kept whole on the 64-bit hosts
/// this library runs on, and truncated on narrower ones.
pub fn u64_to_usize(num: u64) -> (res: usize)
    ensures
        res == num as usize,
        num <= usize::MAX ==> res as int == num as int,
{
    num as usize
}

/// Converts a `usize` to a `u64` (the library targets 64-bit hosts only).
pub fn usize_to_u64(num: usize) -> (res: u64)
    ensures
        res as int == num as int,
{
    num as u64
}

/// Converts MiB to bytes. The shift discards the bits that do not fit, so the
/// result is exact only when the byte count fits in a `usize`.
pub fn mib_to_bytes(mib: usize) -> (res: usize)
    ensures
        res == (mib << 20usize),
        spec_mib(mib as int) <= usize::MAX ==> res as int == spec_mib(mib as int),
{
    let res = mib << MIB_TO_BYTES_SHIFT;
    proof {
        if spec_mib(mib as int) <= usize::MAX {
            vstd::arithmetic::power2::lemma2_to64();
            vstd::bits::lemma_usize_shl_is_mul(mib, 20);
        }
    }
    res
}

} // verus!
