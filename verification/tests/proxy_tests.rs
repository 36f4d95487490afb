use axcli::pagecache::LinuxError;
use axcli::proxy::{
    answer_of, decode_syscall, transfer_result, FdTable, ProxyCall, SYS_CLOSE, SYS_MMAP, SYS_OPENAT, SYS_WRITE,
};

#[test]
fn fd_table_records_and_finds_open_files() {
    let mut t = FdTable::new();
    t.record(5, "/etc/hosts".to_string());
    assert_eq!(t.path_of(5), Ok("/etc/hosts".to_string()));
    assert_eq!(t.path_of(6), Err(LinuxError::ENOENT));
}

#[test]
fn fd_table_ignores_failed_opens() {
    let mut t = FdTable::new();
    t.record(0, "/nope".to_string());
    t.record(-1, "/nope".to_string());
    assert_eq!(t.path_of(0), Err(LinuxError::ENOENT));
    assert_eq!(t.path_of(-1), Err(LinuxError::ENOENT));
}

#[test]
fn fd_table_close_forgets_descriptor() {
    let mut t = FdTable::new();
    t.record(7, "socket".to_string());
    assert_eq!(t.close(7), Ok("socket".to_string()));
    assert_eq!(t.close(7), Err(LinuxError::ENOENT));
    assert_eq!(t.path_of(7), Err(LinuxError::ENOENT));
}

#[test]
fn fd_table_reopen_replaces_path() {
    let mut t = FdTable::new();
    t.record(3, "/a".to_string());
    t.record(3, "/b".to_string());
    assert_eq!(t.path_of(3), Ok("/b".to_string()));
}

#[test]
fn fstat_names_standard_streams() {
    let mut t = FdTable::new();
    assert_eq!(t.fstat_name(0), Ok("stdin".to_string()));
    assert_eq!(t.fstat_name(1), Ok("stdout".to_string()));
    assert_eq!(t.fstat_name(2), Ok("stderr".to_string()));
    assert_eq!(t.fstat_name(3), Err(LinuxError::ENOENT));
    t.record(1, "/log".to_string());
    assert_eq!(t.fstat_name(1), Ok("/log".to_string()));
}

#[test]
fn decode_routes_arguments() {
    let a = [10, 20, 30, 40, 50, 60];
    assert_eq!(decode_syscall(SYS_WRITE, a), Ok(ProxyCall::Write { fd: 10, buf: 20, count: 30 }));
    assert_eq!(
        decode_syscall(SYS_OPENAT, a),
        Ok(ProxyCall::OpenAt { dirfd: 10, path: 20, flags: 30, mode: 40, stat: 50 })
    );
    assert_eq!(
        decode_syscall(SYS_MMAP, a),
        Ok(ProxyCall::MmapIntoPageCache { addr: 10, length: 20, wb_fd: 30, wb_offset: 40, fd: 50, offset: 60 })
    );
    assert_eq!(decode_syscall(SYS_CLOSE, a), Ok(ProxyCall::Close { fd: 10 }));
}

#[test]
fn decode_refuses_unserved_calls() {
    assert_eq!(decode_syscall(60, [0; 6]), Err(LinuxError::ENOSYS));
    assert_eq!(decode_syscall(30, [0; 6]), Err(LinuxError::ENOSYS));
}

#[test]
fn transfer_failure_is_eio() {
    assert_eq!(transfer_result(-1), Err(LinuxError::EIO));
    assert_eq!(transfer_result(0), Ok(0));
    assert_eq!(transfer_result(4096), Ok(4096));
    assert_eq!(answer_of(Err(LinuxError::EIO)), Err(5));
    assert_eq!(answer_of(Ok(9)), Ok(9));
}
