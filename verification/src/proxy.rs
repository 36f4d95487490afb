//! The system-call proxy of a LibOS instance: which forwarded calls the
//! daemon serves and with which arguments, and the table of host file
//! descriptors that the instance opened through it.
use std::collections::BTreeMap;
use vstd::prelude::*;

use crate::pagecache::LinuxError;

verus! {

broadcast use vstd::std_specs::btree::group_btree_axioms;

/// The host descriptors opened on behalf of the instance, each with the
/// path (or kind) it was opened for.
pub struct FdTable {
    files: BTreeMap<i32, String>,
}

impl View for FdTable {
    type V = Map<i32, String>;

    closed spec fn view(&self) -> Map<i32, String> {
        self.files@
    }
}

/// The table after a call that returned `fd` for `path`: only a positive
/// descriptor is recorded, replacing what the table held for it.
pub open spec fn recorded(m: Map<i32, String>, fd: i32, path: String) -> Map<i32, String> {
    if fd > 0 {
        m.insert(fd, path)
    } else {
        m
    }
}

/// What the table holds for `fd`: its path, or `ENOENT` for a descriptor
/// that the instance did not open through the proxy.
pub open spec fn path_lookup(m: Map<i32, String>, fd: i32) -> Result<String, LinuxError> {
    if m.contains_key(fd) {
        Ok(m[fd])
    } else {
        Err(LinuxError::ENOENT)
    }
}

/// The name under which `fstat` reports on `fd`: the recorded path, or
/// one of the three standard streams.
pub open spec fn fstat_target(m: Map<i32, String>, fd: i32) -> Result<Seq<char>, LinuxError> {
    if m.contains_key(fd) {
        Ok(m[fd]@)
    } else if fd == 0 {
        Ok("stdin"@)
    } else if fd == 1 {
        Ok("stdout"@)
    } else if fd == 2 {
        Ok("stderr"@)
    } else {
        Err(LinuxError::ENOENT)
    }
}

impl FdTable {
    /// An empty table.
    pub fn new() -> (r: Self)
        ensures
            r@ == Map::<i32, String>::empty(),
    {
        FdTable { files: BTreeMap::new() }
    }

    /// Records the descriptor that an `openat` or `socket` returned.
    pub fn record(&mut self, fd: i32, path: String)
        ensures
            final(self)@ == recorded(old(self)@, fd, path),
    {
        if fd > 0 {
            self.files.insert(fd, path);
        }
    }

    /// The path recorded for `fd` (see [`path_lookup`]).
    pub fn path_of(&self, fd: i32) -> (r: Result<String, LinuxError>)
        ensures
            r == path_lookup(self@, fd),
    {
        match self.files.get(&fd) {
            Some(p) => Ok(p.clone()),
            None => Err(LinuxError::ENOENT),
        }
    }

    /// What `fstat` on `fd` reports on (see [`fstat_target`]).
    pub fn fstat_name(&self, fd: i32) -> (r: Result<String, LinuxError>)
        ensures
            match (r, fstat_target(self@, fd)) {
                (Ok(s), Ok(t)) => s@ == t,
                (Err(e), Err(f)) => e == f,
                _ => false,
            },
    {
        match self.files.get(&fd) {
            Some(p) => Ok(p.clone()),
            None => {
                if fd == 0 {
                    Ok(String::from_str("stdin"))
                } else if fd == 1 {
                    Ok(String::from_str("stdout"))
                } else if fd == 2 {
                    Ok(String::from_str("stderr"))
                } else {
                    Err(LinuxError::ENOENT)
                }
            },
        }
    }

    /// Forgets `fd` on `close`, returning the path it had; `ENOENT` (and
    /// the table unchanged) for a descriptor the table does not hold.
    pub fn close(&mut self, fd: i32) -> (r: Result<String, LinuxError>)
        ensures
            r == path_lookup(old(self)@, fd),
            final(self)@ == old(self)@.remove(fd),
    {
        match self.files.remove(&fd) {
            Some(p) => Ok(p),
            None => Err(LinuxError::ENOENT),
        }
    }
}

/// Numbers of the forwarded system calls (x86-64 Linux).
pub const SYS_READ: u64 = 0;
pub const SYS_WRITE: u64 = 1;
pub const SYS_CLOSE: u64 = 3;
pub const SYS_FSTAT: u64 = 5;
pub const SYS_MMAP: u64 = 9;
pub const SYS_PREAD64: u64 = 17;
pub const SYS_ACCESS: u64 = 21;
pub const SYS_SHMGET: u64 = 29;
pub const SYS_SOCKET: u64 = 41;
pub const SYS_CONNECT: u64 = 42;
pub const SYS_OPENAT: u64 = 257;
pub const SYS_NEWFSTATAT: u64 = 262;
pub const SYS_GETRANDOM: u64 = 318;

/// A forwarded system call that the daemon serves, with its arguments.
/// `MmapIntoPageCache` reuses the `mmap` arguments: the target address
/// in the page-cache pool, the length, a writeback descriptor and offset,
/// and the source descriptor and offset. `OpenAt` takes a fifth argument,
/// a `stat` buffer to fill for the opened file when it is not zero.
#[derive(Debug, Clone, Copy, PartialEq, Eq, Structural)]
pub enum ProxyCall {
    Read { fd: u64, buf: u64, count: u64 },
    Write { fd: u64, buf: u64, count: u64 },
    Access { path: u64, mode: u64 },
    OpenAt { dirfd: u64, path: u64, flags: u64, mode: u64, stat: u64 },
    Fstat { fd: u64, stat: u64 },
    NewFstatAt { dirfd: u64, path: u64, stat: u64, flags: u64 },
    Close { fd: u64 },
    MmapIntoPageCache { addr: u64, length: u64, wb_fd: u64, wb_offset: u64, fd: u64, offset: u64 },
    Pread64 { fd: u64, buf: u64, count: u64, offset: u64 },
    GetRandom { buf: u64, len: u64, flags: u64 },
    ShmGet { key: u64, size: u64, flags: u64 },
    Socket { domain: u64, ty: u64, protocol: u64 },
    Connect { fd: u64, addr: u64, len: u64 },
}

/// The call that system call `sysno` with arguments `a` asks for; any
/// other number is not served (`ENOSYS`).
pub open spec fn proxy_call(sysno: u64, a: Seq<u64>) -> Result<ProxyCall, LinuxError> {
    if sysno == SYS_WRITE {
        Ok(ProxyCall::Write { fd: a[0], buf: a[1], count: a[2] })
    } else if sysno == SYS_READ {
        Ok(ProxyCall::Read { fd: a[0], buf: a[1], count: a[2] })
    } else if sysno == SYS_ACCESS {
        Ok(ProxyCall::Access { path: a[0], mode: a[1] })
    } else if sysno == SYS_OPENAT {
        Ok(ProxyCall::OpenAt { dirfd: a[0], path: a[1], flags: a[2], mode: a[3], stat: a[4] })
    } else if sysno == SYS_FSTAT {
        Ok(ProxyCall::Fstat { fd: a[0], stat: a[1] })
    } else if sysno == SYS_NEWFSTATAT {
        Ok(ProxyCall::NewFstatAt { dirfd: a[0], path: a[1], stat: a[2], flags: a[3] })
    } else if sysno == SYS_CLOSE {
        Ok(ProxyCall::Close { fd: a[0] })
    } else if sysno == SYS_MMAP {
        Ok(
            ProxyCall::MmapIntoPageCache {
                addr: a[0],
                length: a[1],
                wb_fd: a[2],
                wb_offset: a[3],
                fd: a[4],
                offset: a[5],
            },
        )
    } else if sysno == SYS_PREAD64 {
        Ok(ProxyCall::Pread64 { fd: a[0], buf: a[1], count: a[2], offset: a[3] })
    } else if sysno == SYS_GETRANDOM {
        Ok(ProxyCall::GetRandom { buf: a[0], len: a[1], flags: a[2] })
    } else if sysno == SYS_SHMGET {
        Ok(ProxyCall::ShmGet { key: a[0], size: a[1], flags: a[2] })
    } else if sysno == SYS_SOCKET {
        Ok(ProxyCall::Socket { domain: a[0], ty: a[1], protocol: a[2] })
    } else if sysno == SYS_CONNECT {
        Ok(ProxyCall::Connect { fd: a[0], addr: a[1], len: a[2] })
    } else {
        Err(LinuxError::ENOSYS)
    }
}

/// The system-call number a call is made with.
pub open spec fn call_number(c: ProxyCall) -> u64 {
    match c {
        ProxyCall::Read { .. } => SYS_READ,
        ProxyCall::Write { .. } => SYS_WRITE,
        ProxyCall::Access { .. } => SYS_ACCESS,
        ProxyCall::OpenAt { .. } => SYS_OPENAT,
        ProxyCall::Fstat { .. } => SYS_FSTAT,
        ProxyCall::NewFstatAt { .. } => SYS_NEWFSTATAT,
        ProxyCall::Close { .. } => SYS_CLOSE,
        ProxyCall::MmapIntoPageCache { .. } => SYS_MMAP,
        ProxyCall::Pread64 { .. } => SYS_PREAD64,
        ProxyCall::GetRandom { .. } => SYS_GETRANDOM,
        ProxyCall::ShmGet { .. } => SYS_SHMGET,
        ProxyCall::Socket { .. } => SYS_SOCKET,
        ProxyCall::Connect { .. } => SYS_CONNECT,
    }
}

/// The arguments a call carries, in the order the system call takes them.
pub open spec fn call_args(c: ProxyCall) -> Seq<u64> {
    match c {
        ProxyCall::Read { fd, buf, count } => seq![fd, buf, count],
        ProxyCall::Write { fd, buf, count } => seq![fd, buf, count],
        ProxyCall::Access { path, mode } => seq![path, mode],
        ProxyCall::OpenAt { dirfd, path, flags, mode, stat } => seq![dirfd, path, flags, mode, stat],
        ProxyCall::Fstat { fd, stat } => seq![fd, stat],
        ProxyCall::NewFstatAt { dirfd, path, stat, flags } => seq![dirfd, path, stat, flags],
        ProxyCall::Close { fd } => seq![fd],
        ProxyCall::MmapIntoPageCache { addr, length, wb_fd, wb_offset, fd, offset } => seq![
            addr,
            length,
            wb_fd,
            wb_offset,
            fd,
            offset,
        ],
        ProxyCall::Pread64 { fd, buf, count, offset } => seq![fd, buf, count, offset],
        ProxyCall::GetRandom { buf, len, flags } => seq![buf, len, flags],
        ProxyCall::ShmGet { key, size, flags } => seq![key, size, flags],
        ProxyCall::Socket { domain, ty, protocol } => seq![domain, ty, protocol],
        ProxyCall::Connect { fd, addr, len } => seq![fd, addr, len],
    }
}

/// Whether the daemon serves system call `n`.
pub open spec fn served(n: u64) -> bool {
    n == SYS_READ || n == SYS_WRITE || n == SYS_CLOSE || n == SYS_FSTAT || n == SYS_MMAP || n == SYS_PREAD64
        || n == SYS_ACCESS || n == SYS_SHMGET || n == SYS_SOCKET || n == SYS_CONNECT || n == SYS_OPENAT
        || n == SYS_NEWFSTATAT || n == SYS_GETRANDOM
}

/// Decoding keeps the call and its arguments: a served number decodes to a
/// call made with that number, whose fields are the leading arguments in
/// order; any other number is refused with `ENOSYS`.
pub proof fn lemma_decode_keeps_arguments(sysno: u64, a: Seq<u64>)
    requires
        a.len() == 6,
    ensures
        served(sysno) ==> (proxy_call(sysno, a) matches Ok(c) && call_number(c) == sysno && call_args(c)
            =~= a.subrange(0, call_args(c).len() as int)),
        !served(sysno) ==> proxy_call(sysno, a) == Err::<ProxyCall, LinuxError>(LinuxError::ENOSYS),
{
}

/// Decodes a forwarded system call (see [`proxy_call`]).
pub fn decode_syscall(sysno: u64, args: [u64; 6]) -> (r: Result<ProxyCall, LinuxError>)
    ensures
        r == proxy_call(sysno, args@),
{
    if sysno == SYS_WRITE {
        Ok(ProxyCall::Write { fd: args[0], buf: args[1], count: args[2] })
    } else if sysno == SYS_READ {
        Ok(ProxyCall::Read { fd: args[0], buf: args[1], count: args[2] })
    } else if sysno == SYS_ACCESS {
        Ok(ProxyCall::Access { path: args[0], mode: args[1] })
    } else if sysno == SYS_OPENAT {
        Ok(ProxyCall::OpenAt { dirfd: args[0], path: args[1], flags: args[2], mode: args[3], stat: args[4] })
    } else if sysno == SYS_FSTAT {
        Ok(ProxyCall::Fstat { fd: args[0], stat: args[1] })
    } else if sysno == SYS_NEWFSTATAT {
        Ok(ProxyCall::NewFstatAt { dirfd: args[0], path: args[1], stat: args[2], flags: args[3] })
    } else if sysno == SYS_CLOSE {
        Ok(ProxyCall::Close { fd: args[0] })
    } else if sysno == SYS_MMAP {
        Ok(
            ProxyCall::MmapIntoPageCache {
                addr: args[0],
                length: args[1],
                wb_fd: args[2],
                wb_offset: args[3],
                fd: args[4],
                offset: args[5],
            },
        )
    } else if sysno == SYS_PREAD64 {
        Ok(ProxyCall::Pread64 { fd: args[0], buf: args[1], count: args[2], offset: args[3] })
    } else if sysno == SYS_GETRANDOM {
        Ok(ProxyCall::GetRandom { buf: args[0], len: args[1], flags: args[2] })
    } else if sysno == SYS_SHMGET {
        Ok(ProxyCall::ShmGet { key: args[0], size: args[1], flags: args[2] })
    } else if sysno == SYS_SOCKET {
        Ok(ProxyCall::Socket { domain: args[0], ty: args[1], protocol: args[2] })
    } else if sysno == SYS_CONNECT {
        Ok(ProxyCall::Connect { fd: args[0], addr: args[1], len: args[2] })
    } else {
        Err(LinuxError::ENOSYS)
    }
}

/// The outcome of a forwarded `read`, `write` or `pread64` whose host call
/// returned `ret`: the byte count, or `EIO` when the host call failed.
pub fn transfer_result(ret: i64) -> (r: Result<u64, LinuxError>)
    ensures
        ret < 0 ==> r == Err::<u64, LinuxError>(LinuxError::EIO),
        ret >= 0 ==> r == Ok::<u64, LinuxError>(ret as u64),
{
    if ret < 0 {
        Err(LinuxError::EIO)
    } else {
        Ok(ret as u64)
    }
}

/// What the proxy answers when the instance asks for a call: the value
/// from [`transfer_result`] or another handler, or the negated error
/// number.
pub open spec fn proxy_answer(res: Result<u64, LinuxError>) -> Result<u64, i32> {
    match res {
        Ok(v) => Ok(v),
        Err(e) => Err(crate::pagecache::errno(e)),
    }
}

/// Maps a handler's outcome to the value handed back through the queue
/// (see [`proxy_answer`]).
pub fn answer_of(res: Result<u64, LinuxError>) -> (r: Result<u64, i32>)
    ensures
        r == proxy_answer(res),
        r matches Err(code) ==> code > 0,
{
    match res {
        Ok(v) => Ok(v),
        Err(e) => Err(e.code()),
    }
}

/// A descriptor that an `openat` or `socket` recorded is found again,
/// with the path it was recorded with.
pub proof fn lemma_record_then_lookup(m: Map<i32, String>, fd: i32, path: String)
    requires
        fd > 0,
    ensures
        path_lookup(recorded(m, fd, path), fd) == Ok::<String, LinuxError>(path),
{
}

/// Recording one descriptor leaves what the table says of every other
/// descriptor unchanged.
pub proof fn lemma_record_keeps_others(m: Map<i32, String>, fd: i32, path: String, other: i32)
    requires
        other != fd,
    ensures
        path_lookup(recorded(m, fd, path), other) == path_lookup(m, other),
{
}

/// A failed open (a descriptor that is not positive) records nothing.
pub proof fn lemma_failed_open_records_nothing(m: Map<i32, String>, fd: i32, path: String)
    requires
        fd <= 0,
    ensures
        recorded(m, fd, path) == m,
{
}

/// After `close`, the descriptor is unknown to the table: a second close,
/// a read or a write on it fails with `ENOENT`.
pub proof fn lemma_close_forgets(m: Map<i32, String>, fd: i32)
    ensures
        path_lookup(m.remove(fd), fd) == Err::<String, LinuxError>(LinuxError::ENOENT),
{
}

} // verus!
