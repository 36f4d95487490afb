//! Filling the instance's page-cache pool from host files: the checks on
//! a forwarded file mapping request, and how many bytes of the target
//! frame come from the file and how many are zeroed.
use vstd::prelude::*;

verus! {

/// Start of the page-cache pool in the daemon's address space.
pub const PAGE_CACHE_POOL_BASE_VA: u64 = 0x5000_0000_0000;
/// Size of the page-cache pool.
pub const PAGE_CACHE_POOL_SIZE: u64 = 0x4000_0000;

/// The Linux errors a forwarded request can fail with.
#[derive(Debug, Clone, Copy, PartialEq, Eq, Structural)]
pub enum LinuxError {
    /// No such file or directory.
    ENOENT,
    /// Input/output error.
    EIO,
    /// Invalid argument.
    EINVAL,
    /// Function not implemented.
    ENOSYS,
}

pub open spec fn errno(e: LinuxError) -> i32 {
    match e {
        LinuxError::ENOENT => 2,
        LinuxError::EIO => 5,
        LinuxError::EINVAL => 22,
        LinuxError::ENOSYS => 38,
    }
}

impl LinuxError {
    /// The error number.
    pub fn code(&self) -> (r: i32)
        ensures
            r == errno(*self),
            r > 0,
    {
        match self {
            LinuxError::ENOENT => 2,
            LinuxError::EIO => 5,
            LinuxError::EINVAL => 22,
            LinuxError::ENOSYS => 38,
        }
    }
}

/// How a frame of `length` bytes is filled: the first `copy_len` bytes
/// from the file, then `zero_len` zero bytes.
#[derive(Debug, Clone, Copy, PartialEq, Eq, Structural)]
pub struct FillPlan {
    pub copy_len: u64,
    pub zero_len: u64,
}

/// Whether `addr` lies in the page-cache pool.
pub open spec fn in_pool(addr: u64) -> bool {
    PAGE_CACHE_POOL_BASE_VA <= addr < PAGE_CACHE_POOL_BASE_VA + PAGE_CACHE_POOL_SIZE
}

/// The outcome of a request to fill `length` bytes at `addr` from the file
/// at `offset`, with writeback descriptor `wb_fd`; `file_len` is the
/// file's length, or `None` when the descriptor is not a registered file
/// or the file cannot be examined.
pub open spec fn fill_outcome(addr: u64, length: u64, wb_fd: u64, offset: u64, file_len: Option<u64>) -> Result<
    FillPlan,
    LinuxError,
> {
    if wb_fd != 0 {
        Err(LinuxError::ENOSYS)
    } else if !in_pool(addr) {
        Err(LinuxError::EINVAL)
    } else {
        match file_len {
            None => Err(LinuxError::ENOENT),
            Some(n) => if offset >= n {
                Ok(FillPlan { copy_len: 0, zero_len: length })
            } else {
                let avail = n - offset;
                let copy = if avail < length { avail } else { length as int };
                Ok(FillPlan { copy_len: copy as u64, zero_len: (length - copy) as u64 })
            },
        }
    }
}

/// Decides how to serve a forwarded file mapping into the page-cache pool
/// (see [`fill_outcome`]). Writeback is not supported.
pub fn pagecache_fill_plan(addr: u64, length: u64, wb_fd: u64, offset: u64, file_len: Option<u64>) -> (r: Result<
    FillPlan,
    LinuxError,
>)
    ensures
        r == fill_outcome(addr, length, wb_fd, offset, file_len),
        r matches Ok(p) ==> p.copy_len + p.zero_len == length,
{
    if wb_fd != 0 {
        return Err(LinuxError::ENOSYS);
    }
    if addr < PAGE_CACHE_POOL_BASE_VA || addr >= PAGE_CACHE_POOL_BASE_VA + PAGE_CACHE_POOL_SIZE {
        return Err(LinuxError::EINVAL);
    }
    match file_len {
        None => Err(LinuxError::ENOENT),
        Some(n) => {
            if offset >= n {
                return Ok(FillPlan { copy_len: 0, zero_len: length });
            }
            let avail = n - offset;
            let copy = if avail < length { avail } else { length };
            Ok(FillPlan { copy_len: copy, zero_len: length - copy })
        },
    }
}

} // verus!
