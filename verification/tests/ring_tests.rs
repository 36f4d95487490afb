use axcli::console::{
    attach_console, poll_console_once, ConsoleInput, ConsoleRingHeader, ConsoleRingView,
    MicroVmConsoleSession, MICROVM_CONSOLE_RING_DATA_SIZE, MICROVM_CONSOLE_RING_MAGIC,
};
use axcli::scf::{answer, encode_syscall_answer, poll, ScfDescriptor, SyscallQueueBuffer};

fn ring(head: u32, bytes: &[(usize, u8)]) -> ConsoleRingView {
    let mut data = vec![0u8; MICROVM_CONSOLE_RING_DATA_SIZE];
    for &(i, b) in bytes {
        data[i] = b;
    }
    ConsoleRingView { guest_to_host_head: head, guest_to_host: data, host_to_guest_head: 0, host_to_guest_tail: 0 }
}

#[test]
fn attach_console_checks_address_and_magic() {
    let header = ConsoleRingHeader { magic: MICROVM_CONSOLE_RING_MAGIC, guest_to_host_tail: 5, host_to_guest_head: 9 };
    assert_eq!(attach_console(0, Err("unused".to_string())), Ok(None));
    assert_eq!(
        attach_console(0x1000, Ok(header)),
        Ok(Some(MicroVmConsoleSession { guest_to_host_tail: 5, host_to_guest_head: 9 }))
    );
    let bad = ConsoleRingHeader { magic: 1, ..header };
    assert_eq!(attach_console(0x1000, Ok(bad)), Err("microVM console ring magic mismatch".to_string()));
    assert_eq!(attach_console(0x1000, Err("map failed".to_string())), Err("map failed".to_string()));
}

#[test]
fn console_drains_output_in_order_across_wrap() {
    let n = MICROVM_CONSOLE_RING_DATA_SIZE;
    let mut s = MicroVmConsoleSession { guest_to_host_tail: u32::MAX - 1, host_to_guest_head: 0 };
    // Cursors u32::MAX - 1, u32::MAX, 0 land in the last two slots and the first.
    let r = ring(1, &[(n - 2, b'a'), (n - 1, b'b'), (0, b'c')]);
    let out = poll_console_once(&mut s, &r, None);
    assert_eq!(out.output, b"abc".to_vec());
    assert_eq!(out.guest_to_host_tail, 1);
    assert_eq!(s.guest_to_host_tail, 1);
    assert!(out.input.is_none());
    // Nothing new: nothing drained.
    let again = poll_console_once(&mut s, &r, None);
    assert!(again.output.is_empty());
}

#[test]
fn console_draining_in_two_polls_matches_one() {
    let r1 = ring(2, &[(0, b'x'), (1, b'y'), (2, b'z')]);
    let r2 = ring(3, &[(0, b'x'), (1, b'y'), (2, b'z')]);
    let mut split = MicroVmConsoleSession { guest_to_host_tail: 0, host_to_guest_head: 0 };
    let mut joined = split;
    let mut out = poll_console_once(&mut split, &r1, None).output;
    out.extend(poll_console_once(&mut split, &r2, None).output);
    assert_eq!(out, poll_console_once(&mut joined, &r2, None).output);
    assert_eq!(out, b"xyz".to_vec());
}

#[test]
fn console_input_is_stored_or_dropped() {
    let mut s = MicroVmConsoleSession { guest_to_host_tail: 0, host_to_guest_head: 4097 };
    let r = ring(0, &[]);
    let p = poll_console_once(&mut s, &r, Some(b'q'));
    assert_eq!(p.input, Some(ConsoleInput::Store { slot: 1, byte: b'q', head: 4098 }));
    assert_eq!(s.host_to_guest_head, 4098);
    let full = ConsoleRingView {
        host_to_guest_head: 4096,
        host_to_guest_tail: 0,
        ..ring(0, &[])
    };
    let p = poll_console_once(&mut s, &full, Some(b'q'));
    assert_eq!(p.input, Some(ConsoleInput::Dropped));
    assert_eq!(s.host_to_guest_head, 4098);
}

#[test]
fn syscall_queue_takes_requests_in_order_and_answers() {
    let mut q = SyscallQueueBuffer::new(4, 10);
    let req_ring = vec![2u16, 0, 3, 1];
    let mut descs = vec![ScfDescriptor { sysno: 0, args: [0; 6], ret: 0 }; 4];
    descs[2] = ScfDescriptor { sysno: 39, args: [1, 2, 3, 4, 5, 6], ret: 0 };
    descs[0].sysno = 1;
    assert!(poll(&mut q, 0, &req_ring, &descs).is_none());
    let first = poll(&mut q, 2, &req_ring, &descs).unwrap();
    assert_eq!((first.index, first.sysno, first.args), (2, 39, [1, 2, 3, 4, 5, 6]));
    let second = poll(&mut q, 2, &req_ring, &descs).unwrap();
    assert_eq!((second.index, second.sysno), (0, 1));
    assert!(poll(&mut q, 2, &req_ring, &descs).is_none());
    assert_eq!(q.req_index_last, 2);

    let mut rsp_ring = vec![0u16; 4];
    assert!(answer(&mut q, 2, Ok(77), &mut descs, &mut rsp_ring));
    assert_eq!(descs[2].ret, 77);
    assert_eq!(rsp_ring[10 & 3], 2);
    assert_eq!(q.rsp_index_shadow, 11);
    assert!(answer(&mut q, 0, Err(38), &mut descs, &mut rsp_ring));
    assert_eq!(descs[0].ret, (-38i64) as u64);
    assert!(!answer(&mut q, 4, Ok(0), &mut descs, &mut rsp_ring));
    assert_eq!(q.rsp_index_shadow, 12);
}

#[test]
fn syscall_answer_encoding_and_counter_wrap() {
    assert_eq!(encode_syscall_answer(Ok(5)), 5);
    assert_eq!(encode_syscall_answer(Err(2)), u64::MAX - 1);
    let mut q = SyscallQueueBuffer { capacity_mask: 1, req_index_last: u16::MAX, rsp_index_shadow: 0 };
    let req_ring = vec![0u16, 1];
    let descs = vec![ScfDescriptor { sysno: 7, args: [0; 6], ret: 0 }; 2];
    let r = poll(&mut q, 0, &req_ring, &descs).unwrap();
    assert_eq!(r.index, 1);
    assert_eq!(q.req_index_last, 0);
}
