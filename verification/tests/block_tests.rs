use axcli::block::{attach_block_notify, BlockNotifySession, MICROVM_BLOCK_NOTIFY_MAGIC, MICROVM_BLOCK_NOTIFY_RING_SIZE};
use axcli::block::{
    apply_queue_notify, avail_ring_address, check_image_range, check_request_chain, check_status_desc,
    copy_chunk, descriptor_address, descriptor_chain, drive_id_buffer, pending_request_count,
    plan_request, request_data_len, used_len, used_ring_address, BlockNotifyEntry, QueueRuntime,
    RequestAction, VirtioBlkOutHdr, VringDesc, VIRTIO_BLK_S_IOERR, VIRTIO_BLK_S_UNSUPP,
    VRING_DESC_F_INDIRECT, VRING_DESC_F_NEXT, VRING_DESC_F_WRITE,
};

fn entry(size: u16) -> BlockNotifyEntry {
    BlockNotifyEntry {
        queue_id: 0,
        queue_size: size,
        msix_vector: 1,
        desc_addr: 0x1000,
        avail_addr: 0x2000,
        used_addr: 0x3000,
        seq: 1,
        flags: 0,
    }
}

#[test]
fn queue_notify_sets_layout_and_keeps_it() {
    let mut q = QueueRuntime::default();
    assert!(!q.configured());
    assert_eq!(apply_queue_notify(&mut q, &entry(256)), Ok(()));
    assert!(q.configured());
    assert_eq!(q.queue_size, 256);
    assert_eq!(q.last_avail_idx, 0);
    q.last_avail_idx = 7;
    let mut again = entry(256);
    again.msix_vector = 9;
    assert_eq!(apply_queue_notify(&mut q, &again), Ok(()));
    assert_eq!(q.last_avail_idx, 7);
    assert_eq!(q.msix_vector, 9);
    let mut moved = entry(256);
    moved.desc_addr = 0x8000;
    assert_eq!(apply_queue_notify(&mut q, &moved), Ok(()));
    assert_eq!(q.last_avail_idx, 0);
}

#[test]
fn queue_notify_rejects_bad_metadata() {
    let mut q = QueueRuntime::default();
    let mut e = entry(256);
    e.queue_id = 1;
    assert_eq!(apply_queue_notify(&mut q, &e), Err("unsupported virtio-blk queue 1".to_string()));
    let mut e = entry(256);
    e.used_addr = 0;
    assert_eq!(
        apply_queue_notify(&mut q, &e),
        Err("incomplete virtio-blk queue notify metadata".to_string())
    );
    assert_eq!(apply_queue_notify(&mut q, &entry(100)), Err("invalid virtio-blk queue size 100".to_string()));
    assert_eq!(apply_queue_notify(&mut q, &entry(512)), Err("invalid virtio-blk queue size 512".to_string()));
    assert_eq!(q, QueueRuntime::default());
}

#[test]
fn ring_addresses() {
    let mut q = QueueRuntime::default();
    apply_queue_notify(&mut q, &entry(8)).unwrap();
    assert_eq!(descriptor_address(&q, 2), Ok(0x1000 + 32));
    assert_eq!(
        descriptor_address(&q, 8),
        Err("descriptor index 8 exceeds queue size 8".to_string())
    );
    assert_eq!(avail_ring_address(&q, 9), 0x2000 + 4 + 2);
    assert_eq!(used_ring_address(&q, 3), 0x3000 + 4 + 24);
}

#[test]
fn descriptor_chain_follows_next_links() {
    let table = vec![
        VringDesc { addr: 0x100, len: 16, flags: VRING_DESC_F_NEXT, next: 2 },
        VringDesc::default(),
        VringDesc { addr: 0x200, len: 512, flags: VRING_DESC_F_NEXT | VRING_DESC_F_WRITE, next: 3 },
        VringDesc { addr: 0x300, len: 1, flags: VRING_DESC_F_WRITE, next: 0 },
    ];
    let chain = descriptor_chain(&table, 4, 0).unwrap();
    assert_eq!(chain.len(), 3);
    assert_eq!(chain[1].addr, 0x200);
    assert_eq!(check_request_chain(&chain), Ok(()));
    assert_eq!(request_data_len(&chain[1..2].to_vec()), Ok(512));

    let looped = vec![
        VringDesc { addr: 0, len: 16, flags: VRING_DESC_F_NEXT, next: 1 },
        VringDesc { addr: 0, len: 16, flags: VRING_DESC_F_NEXT, next: 0 },
    ];
    assert_eq!(descriptor_chain(&looped, 2, 0), Err("virtio-blk descriptor chain loop".to_string()));
    let indirect = vec![VringDesc { addr: 0, len: 16, flags: VRING_DESC_F_INDIRECT, next: 0 }];
    assert_eq!(
        descriptor_chain(&indirect, 1, 0),
        Err("indirect virtio-blk descriptors are not negotiated".to_string())
    );
    assert_eq!(
        descriptor_chain(&table, 4, 5),
        Err("descriptor index 5 exceeds queue size 4".to_string())
    );
}

#[test]
fn request_chain_checks() {
    let hdr = VringDesc { addr: 0, len: 16, flags: 0, next: 0 };
    let status = VringDesc { addr: 0, len: 1, flags: VRING_DESC_F_WRITE, next: 0 };
    assert_eq!(
        check_request_chain(&vec![hdr]),
        Err("virtio-blk descriptor chain is too short".to_string())
    );
    let small = VringDesc { len: 8, ..hdr };
    assert_eq!(
        check_request_chain(&vec![small, status]),
        Err("virtio-blk header descriptor is too small".to_string())
    );
    let writable = VringDesc { flags: VRING_DESC_F_WRITE, ..hdr };
    assert_eq!(
        check_request_chain(&vec![writable, status]),
        Err("virtio-blk header descriptor is device-writable".to_string())
    );
    assert_eq!(check_status_desc(&status), Ok(()));
    assert_eq!(
        check_status_desc(&hdr),
        Err("invalid virtio-blk status descriptor".to_string())
    );
}

#[test]
fn image_range_and_request_plans() {
    assert_eq!(check_image_range("rootfs", 4096, 0, 4096), Ok(()));
    assert_eq!(
        check_image_range("rootfs", 4096, 512, 4096),
        Err("virtio-blk request exceeds backing image: drive=rootfs off=512 len=4096 image_len=4096".to_string())
    );
    assert_eq!(
        check_image_range("rootfs", 4096, u64::MAX, 2),
        Err(format!("virtio-blk image offset overflow: off={} len=2", u64::MAX))
    );
    let read = VirtioBlkOutHdr { type_: 0, ioprio: 0, sector: 2 };
    assert_eq!(plan_request("rootfs", 8192, false, &read, 512), Ok(RequestAction::Read { file_off: 1024 }));
    let write = VirtioBlkOutHdr { type_: 1, ioprio: 0, sector: 1 };
    assert_eq!(plan_request("rootfs", 8192, false, &write, 512), Ok(RequestAction::Write { file_off: 512 }));
    assert_eq!(
        plan_request("rootfs", 8192, true, &write, 512),
        Ok(RequestAction::Status(VIRTIO_BLK_S_IOERR))
    );
    let flush = VirtioBlkOutHdr { type_: 4, ioprio: 0, sector: 0 };
    assert_eq!(plan_request("rootfs", 8192, false, &flush, 0), Ok(RequestAction::Flush));
    let get_id = VirtioBlkOutHdr { type_: 8, ioprio: 0, sector: 0 };
    assert_eq!(plan_request("rootfs", 8192, false, &get_id, 20), Ok(RequestAction::GetId));
    let other = VirtioBlkOutHdr { type_: 99, ioprio: 0, sector: 0 };
    assert_eq!(
        plan_request("rootfs", 8192, false, &other, 0),
        Ok(RequestAction::Status(VIRTIO_BLK_S_UNSUPP))
    );
    let huge = VirtioBlkOutHdr { type_: 0, ioprio: 0, sector: u64::MAX };
    assert_eq!(
        plan_request("rootfs", 8192, false, &huge, 0),
        Err(format!("virtio-blk sector overflow: {}", u64::MAX))
    );
}

#[test]
fn id_buffer_counts_and_chunks() {
    assert_eq!(drive_id_buffer(4), b"eqvi".to_vec());
    let mut full = b"eqvisor-rootfs\0".to_vec();
    full.extend_from_slice(&[0u8; 5]);
    assert_eq!(drive_id_buffer(20), full);
    assert_eq!(used_len(512), 513);
    assert_eq!(pending_request_count(5, 9), 4);
    assert_eq!(pending_request_count(0xfffe, 2), 4);
    assert_eq!(pending_request_count(3, 3), 0);
    assert_eq!(copy_chunk(0x3_0000, 0), 0x1_0000);
    assert_eq!(copy_chunk(0x1_0100, 0x1_0000), 0x100);
}

#[test]
fn notify_ring_attach_and_pop() {
    assert_eq!(
        attach_block_notify(3, 0, Ok((MICROVM_BLOCK_NOTIFY_MAGIC, 0))),
        Err("block drives configured for instance 3, but notify ring GPA is zero".to_string())
    );
    assert_eq!(
        attach_block_notify(3, 0x1000, Ok((0x1234, 0))),
        Err(format!(
            "block notify ring magic mismatch for instance 3: got 0x1234, expected {:#x}",
            MICROVM_BLOCK_NOTIFY_MAGIC
        ))
    );
    let mut s = attach_block_notify(3, 0x1000, Ok((MICROVM_BLOCK_NOTIFY_MAGIC, u32::MAX))).unwrap();
    assert_eq!(s, BlockNotifySession { tail: u32::MAX });
    let mut entries = vec![BlockNotifyEntry::default(); MICROVM_BLOCK_NOTIFY_RING_SIZE];
    entries[MICROVM_BLOCK_NOTIFY_RING_SIZE - 1].seq = 41;
    entries[0].seq = 42;
    assert_eq!(s.pop(1, &entries).map(|e| e.seq), Some(41));
    assert_eq!(s.pop(1, &entries).map(|e| e.seq), Some(42));
    assert_eq!(s.pop(1, &entries), None);
    assert_eq!(s.tail, 1);
}
