//! The split virtio-blk device model: queue setup from notifications,
//! descriptor chains, request checks and the ring arithmetic of the
//! available and used rings. The guest memory and the backing file are
//! accessed by the caller with what these functions decide.
use vstd::prelude::*;
use crate::command::{same_result, str_string};
use crate::text::{dec, hex, push_dec, push_hex, push_str};

verus! {

pub const VRING_DESC_F_NEXT: u16 = 1;
pub const VRING_DESC_F_WRITE: u16 = 2;
pub const VRING_DESC_F_INDIRECT: u16 = 4;
pub const VIRTIO_MSI_NO_VECTOR: u16 = 0xffff;
pub const VIRTIO_BLK_T_IN: u32 = 0;
pub const VIRTIO_BLK_T_OUT: u32 = 1;
pub const VIRTIO_BLK_T_FLUSH: u32 = 4;
pub const VIRTIO_BLK_T_GET_ID: u32 = 8;
pub const VIRTIO_BLK_S_OK: u8 = 0;
pub const VIRTIO_BLK_S_IOERR: u8 = 1;
pub const VIRTIO_BLK_S_UNSUPP: u8 = 2;
/// Size in bytes of a request header (type, priority, sector).
pub const VIRTIO_BLK_OUT_HDR_SIZE: u32 = 16;
/// Size in bytes of a descriptor.
pub const VRING_DESC_SIZE: u64 = 16;
/// Largest copy between the backing file and guest memory at once.
pub const COPY_CHUNK_SIZE: u64 = 0x1_0000;

/// One virtqueue descriptor.
#[derive(Clone, Copy, Debug, Default, PartialEq, Eq, Structural)]
pub struct VringDesc {
    pub addr: u64,
    pub len: u32,
    pub flags: u16,
    pub next: u16,
}

/// The header of a block request.
#[derive(Clone, Copy, Debug, Default, PartialEq, Eq, Structural)]
pub struct VirtioBlkOutHdr {
    pub type_: u32,
    pub ioprio: u32,
    pub sector: u64,
}

/// What the hypervisor tells of a queue when the guest notifies it.
#[derive(Clone, Copy, Debug, Default, PartialEq, Eq, Structural)]
pub struct BlockNotifyEntry {
    pub queue_id: u16,
    pub queue_size: u16,
    pub msix_vector: u16,
    pub desc_addr: u64,
    pub avail_addr: u64,
    pub used_addr: u64,
    pub seq: u64,
    pub flags: u32,
}

/// The device side of the one request queue.
#[derive(Clone, Copy, Debug, Default, PartialEq, Eq, Structural)]
pub struct QueueRuntime {
    pub queue_size: u16,
    pub msix_vector: u16,
    pub desc_addr: u64,
    pub avail_addr: u64,
    pub used_addr: u64,
    pub last_avail_idx: u16,
}

impl QueueRuntime {
    pub open spec fn spec_configured(self) -> bool {
        self.queue_size != 0 && self.desc_addr != 0 && self.avail_addr != 0 && self.used_addr != 0
    }

    /// Whether the guest has set the queue up.
    pub fn configured(&self) -> (r: bool)
        ensures
            r == self.spec_configured(),
    {
        self.queue_size != 0 && self.desc_addr != 0 && self.avail_addr != 0 && self.used_addr != 0
    }
}

/// Whether `n` is a power of two.
pub open spec fn is_pow2(n: u16) -> bool {
    n == 1 || n == 2 || n == 4 || n == 8 || n == 16 || n == 32 || n == 64 || n == 128 || n == 256
        || n == 512 || n == 1024 || n == 2048 || n == 4096 || n == 8192 || n == 16384 || n == 32768
}

fn is_pow2_exec(n: u16) -> (r: bool)
    ensures
        r == is_pow2(n),
{
    n == 1 || n == 2 || n == 4 || n == 8 || n == 16 || n == 32 || n == 64 || n == 128 || n == 256
        || n == 512 || n == 1024 || n == 2048 || n == 4096 || n == 8192 || n == 16384 || n == 32768
}

/// The queue after a notification: only queue 0 exists; its size must be a
/// power of two up to 256 and its rings set; a new layout restarts the
/// queue from index zero, the same layout only takes the new MSI-X vector.
pub open spec fn queue_after_notify(q: QueueRuntime, e: BlockNotifyEntry) -> Result<QueueRuntime, Seq<char>> {
    if e.queue_id != 0 {
        Err("unsupported virtio-blk queue "@ + dec(e.queue_id as nat))
    } else if e.queue_size == 0 || e.desc_addr == 0 || e.avail_addr == 0 || e.used_addr == 0 {
        Err("incomplete virtio-blk queue notify metadata"@)
    } else if e.queue_size > 256 || !is_pow2(e.queue_size) {
        Err("invalid virtio-blk queue size "@ + dec(e.queue_size as nat))
    } else if q.queue_size != e.queue_size || q.desc_addr != e.desc_addr || q.avail_addr != e.avail_addr
        || q.used_addr != e.used_addr {
        Ok(QueueRuntime {
            queue_size: e.queue_size,
            msix_vector: e.msix_vector,
            desc_addr: e.desc_addr,
            avail_addr: e.avail_addr,
            used_addr: e.used_addr,
            last_avail_idx: 0,
        })
    } else {
        Ok(QueueRuntime { msix_vector: e.msix_vector, ..q })
    }
}

/// Applies a queue notification (see [`queue_after_notify`]); on error the
/// queue is unchanged.
pub fn apply_queue_notify(q: &mut QueueRuntime, e: &BlockNotifyEntry) -> (r: Result<(), String>)
    ensures
        match queue_after_notify(*old(q), *e) {
            Ok(n) => r is Ok && *final(q) == n,
            Err(m) => r is Err && r->Err_0@ == m && *final(q) == *old(q),
        },
{
    if e.queue_id != 0 {
        let mut m = String::new();
        push_str(&mut m, "unsupported virtio-blk queue ");
        push_dec(&mut m, e.queue_id as u64);
        return Err(m);
    }
    if e.queue_size == 0 || e.desc_addr == 0 || e.avail_addr == 0 || e.used_addr == 0 {
        return Err(str_string("incomplete virtio-blk queue notify metadata"));
    }
    if e.queue_size > 256 || !is_pow2_exec(e.queue_size) {
        let mut m = String::new();
        push_str(&mut m, "invalid virtio-blk queue size ");
        push_dec(&mut m, e.queue_size as u64);
        return Err(m);
    }
    if q.queue_size != e.queue_size || q.desc_addr != e.desc_addr || q.avail_addr != e.avail_addr
        || q.used_addr != e.used_addr {
        *q = QueueRuntime {
            queue_size: e.queue_size,
            msix_vector: e.msix_vector,
            desc_addr: e.desc_addr,
            avail_addr: e.avail_addr,
            used_addr: e.used_addr,
            last_avail_idx: 0,
        };
    } else {
        q.msix_vector = e.msix_vector;
    }
    Ok(())
}

/// The guest address of descriptor `index`.
pub open spec fn desc_addr_of(q: QueueRuntime, index: u16) -> int {
    q.desc_addr + index * VRING_DESC_SIZE
}

/// The guest address of the available-ring slot of index `idx`.
pub open spec fn avail_slot_addr(q: QueueRuntime, idx: u16) -> int {
    q.avail_addr + 4 + (idx % q.queue_size) * 2
}

/// The guest address of the used-ring element of index `idx`.
pub open spec fn used_elem_addr(q: QueueRuntime, idx: u16) -> int {
    q.used_addr + 4 + (idx % q.queue_size) * 8
}

/// Where descriptor `index` is, if it is within the queue and the address
/// fits.
pub fn descriptor_address(q: &QueueRuntime, index: u16) -> (r: Result<u64, String>)
    ensures
        match r {
            Ok(a) => index < q.queue_size && a == desc_addr_of(*q, index),
            Err(m) => index >= q.queue_size && m@ == "descriptor index "@ + dec(index as nat)
                + " exceeds queue size "@ + dec(q.queue_size as nat)
                || index < q.queue_size && desc_addr_of(*q, index) > u64::MAX,
        },
        index < q.queue_size && desc_addr_of(*q, index) <= u64::MAX ==> r is Ok,
{
    if index >= q.queue_size {
        let mut m = String::new();
        push_str(&mut m, "descriptor index ");
        push_dec(&mut m, index as u64);
        push_str(&mut m, " exceeds queue size ");
        push_dec(&mut m, q.queue_size as u64);
        return Err(m);
    }
    let off = index as u64 * VRING_DESC_SIZE;
    match q.desc_addr.checked_add(off) {
        Some(a) => Ok(a),
        None => Err(str_string("descriptor address overflow")),
    }
}

/// Where the available-ring slot of index `idx` is.
pub fn avail_ring_address(q: &QueueRuntime, idx: u16) -> (r: u64)
    requires
        q.queue_size > 0,
        q.avail_addr + 4 + 2 * 0xffff <= u64::MAX,
    ensures
        r == avail_slot_addr(*q, idx),
{
    q.avail_addr + 4 + ((idx % q.queue_size) as u64) * 2
}

/// Where the used-ring element of index `idx` is.
pub fn used_ring_address(q: &QueueRuntime, idx: u16) -> (r: u64)
    requires
        q.queue_size > 0,
        q.used_addr + 4 + 8 * 0xffff <= u64::MAX,
    ensures
        r == used_elem_addr(*q, idx),
{
    q.used_addr + 4 + ((idx % q.queue_size) as u64) * 8
}

/// The descriptor chain from `head` in a snapshot of the descriptor table:
/// each index must be within the queue, no descriptor may be indirect, and
/// the chain must end (lack the next flag) within `queue_size` steps.
pub open spec fn chain_from(table: Seq<VringDesc>, queue_size: u16, index: u16, steps: nat) -> Result<Seq<VringDesc>, Seq<char>>
    decreases steps,
{
    if steps == 0 {
        Err("virtio-blk descriptor chain loop"@)
    } else if index >= queue_size {
        Err("descriptor index "@ + dec(index as nat) + " exceeds queue size "@ + dec(queue_size as nat))
    } else {
        let d = table[index as int];
        if d.flags & VRING_DESC_F_INDIRECT != 0 {
            Err("indirect virtio-blk descriptors are not negotiated"@)
        } else if d.flags & VRING_DESC_F_NEXT == 0 {
            Ok(seq![d])
        } else {
            match chain_from(table, queue_size, d.next, (steps - 1) as nat) {
                Err(m) => Err(m),
                Ok(rest) => Ok(seq![d] + rest),
            }
        }
    }
}

/// The descriptor chain of a request (see [`chain_from`]).
pub open spec fn spec_descriptor_chain(table: Seq<VringDesc>, queue_size: u16, head: u16) -> Result<Seq<VringDesc>, Seq<char>> {
    chain_from(table, queue_size, head, queue_size as nat)
}

fn chain_error(index: u16, queue_size: u16) -> (m: String)
    ensures
        m@ == "descriptor index "@ + dec(index as nat) + " exceeds queue size "@ + dec(queue_size as nat),
{
    let mut m = String::new();
    push_str(&mut m, "descriptor index ");
    push_dec(&mut m, index as u64);
    push_str(&mut m, " exceeds queue size ");
    push_dec(&mut m, queue_size as u64);
    m
}

/// Follows a descriptor chain in a snapshot of the descriptor table (see
/// [`spec_descriptor_chain`]).
pub fn descriptor_chain(table: &Vec<VringDesc>, queue_size: u16, head: u16) -> (r: Result<Vec<VringDesc>, String>)
    requires
        table@.len() >= queue_size,
    ensures
        match spec_descriptor_chain(table@, queue_size, head) {
            Ok(c) => r is Ok && r->Ok_0@ == c,
            Err(m) => r is Err && r->Err_0@ == m,
        },
{
    let mut chain: Vec<VringDesc> = Vec::new();
    let mut index = head;
    let mut steps: u16 = queue_size;
    while steps > 0
        invariant
            table@.len() >= queue_size,
            steps <= queue_size,
            spec_descriptor_chain(table@, queue_size, head) == match chain_from(table@, queue_size, index, steps as nat) {
                Err(m) => Err::<Seq<VringDesc>, Seq<char>>(m),
                Ok(rest) => Ok(chain@ + rest),
            },
        decreases steps,
    {
        if index >= queue_size {
            return Err(chain_error(index, queue_size));
        }
        let d = table[index as usize];
        if d.flags & VRING_DESC_F_INDIRECT != 0 {
            return Err(str_string("indirect virtio-blk descriptors are not negotiated"));
        }
        let ghost before = chain@;
        chain.push(d);
        assert(chain@ == before.push(d));
        if d.flags & VRING_DESC_F_NEXT == 0 {
            proof {
                assert(chain@ =~= before + seq![d]);
            }
            return Ok(chain);
        }
        proof {
            let old_chain = before;
            assert(table@[index as int] == d);
            assert(chain_from(table@, queue_size, index, steps as nat) == match chain_from(table@, queue_size, d.next, (steps - 1) as nat) {
                Err(m) => Err::<Seq<VringDesc>, Seq<char>>(m),
                Ok(rest) => Ok(seq![d] + rest),
            });
            match chain_from(table@, queue_size, d.next, (steps - 1) as nat) {
                Err(m) => {},
                Ok(rest) => {
                    assert(old_chain + (seq![d] + rest) =~= chain@ + rest);
                },
            }
            assert(spec_descriptor_chain(table@, queue_size, head) == match chain_from(table@, queue_size, d.next, (steps - 1) as nat) {
                Err(m) => Err::<Seq<VringDesc>, Seq<char>>(m),
                Ok(rest) => Ok(chain@ + rest),
            });
        }
        index = d.next;
        steps = steps - 1;
    }
    Err(str_string("virtio-blk descriptor chain loop"))
}

/// The checks on a chain before its header is read: a header descriptor and
/// a status descriptor at least, and a header that is large enough and not
/// device-writable.
pub open spec fn chain_check(chain: Seq<VringDesc>) -> Result<(), Seq<char>> {
    if chain.len() < 2 {
        Err("virtio-blk descriptor chain is too short"@)
    } else if chain[0].len < VIRTIO_BLK_OUT_HDR_SIZE {
        Err("virtio-blk header descriptor is too small"@)
    } else if chain[0].flags & VRING_DESC_F_WRITE != 0 {
        Err("virtio-blk header descriptor is device-writable"@)
    } else {
        Ok(())
    }
}

pub fn check_request_chain(chain: &Vec<VringDesc>) -> (r: Result<(), String>)
    ensures
        same_result(r, chain_check(chain@)),
{
    if chain.len() < 2 {
        Err(str_string("virtio-blk descriptor chain is too short"))
    } else if chain[0].len < VIRTIO_BLK_OUT_HDR_SIZE {
        Err(str_string("virtio-blk header descriptor is too small"))
    } else if chain[0].flags & VRING_DESC_F_WRITE != 0 {
        Err(str_string("virtio-blk header descriptor is device-writable"))
    } else {
        Ok(())
    }
}

/// The total length of some descriptors.
pub open spec fn descs_len(ds: Seq<VringDesc>) -> int
    decreases ds.len(),
{
    if ds.len() == 0 {
        0
    } else {
        descs_len(ds.drop_last()) + ds.last().len
    }
}

proof fn lemma_descs_len_monotone(ds: Seq<VringDesc>, i: int)
    requires
        0 <= i <= ds.len(),
    ensures
        descs_len(ds.subrange(0, i)) <= descs_len(ds),
    decreases ds.len() - i,
{
    if i < ds.len() {
        lemma_descs_len_monotone(ds, i + 1);
        assert(ds.subrange(0, i + 1).drop_last() =~= ds.subrange(0, i));
    } else {
        assert(ds.subrange(0, i) =~= ds);
    }
}

/// The data length of a request, unless it overflows 64 bits.
pub fn request_data_len(descs: &Vec<VringDesc>) -> (r: Result<u64, String>)
    ensures
        match r {
            Ok(n) => n == descs_len(descs@),
            Err(m) => descs_len(descs@) > u64::MAX && m@ == "virtio-blk request data length overflow"@,
        },
{
    let mut acc: u64 = 0;
    let mut i: usize = 0;
    while i < descs.len()
        invariant
            i <= descs.len(),
            acc == descs_len(descs@.subrange(0, i as int)),
        decreases descs.len() - i,
    {
        proof {
            assert(descs@.subrange(0, i as int + 1).drop_last() =~= descs@.subrange(0, i as int));
        }
        match acc.checked_add(descs[i].len as u64) {
            Some(n) => acc = n,
            None => {
                proof {
                    lemma_descs_len_monotone(descs@, i as int + 1);
                }
                return Err(str_string("virtio-blk request data length overflow"));
            },
        }
        i = i + 1;
    }
    assert(descs@.subrange(0, descs@.len() as int) =~= descs@);
    Ok(acc)
}

/// A request must end within the backing image.
pub open spec fn image_range_check(drive_id: Seq<char>, file_len: u64, off: u64, len: u64) -> Result<(), Seq<char>> {
    if off + len > u64::MAX {
        Err("virtio-blk image offset overflow: off="@ + dec(off as nat) + " len="@ + dec(len as nat))
    } else if off + len > file_len {
        Err("virtio-blk request exceeds backing image: drive="@ + drive_id + " off="@ + dec(off as nat)
            + " len="@ + dec(len as nat) + " image_len="@ + dec(file_len as nat))
    } else {
        Ok(())
    }
}

pub fn check_image_range(drive_id: &str, file_len: u64, file_off: u64, len: u64) -> (r: Result<(), String>)
    ensures
        same_result(r, image_range_check(drive_id@, file_len, file_off, len)),
{
    match file_off.checked_add(len) {
        None => {
            let mut m = String::new();
            push_str(&mut m, "virtio-blk image offset overflow: off=");
            push_dec(&mut m, file_off);
            push_str(&mut m, " len=");
            push_dec(&mut m, len);
            Err(m)
        },
        Some(end) => {
            if end > file_len {
                let mut m = String::new();
                push_str(&mut m, "virtio-blk request exceeds backing image: drive=");
                push_str(&mut m, drive_id);
                push_str(&mut m, " off=");
                push_dec(&mut m, file_off);
                push_str(&mut m, " len=");
                push_dec(&mut m, len);
                push_str(&mut m, " image_len=");
                push_dec(&mut m, file_len);
                Err(m)
            } else {
                Ok(())
            }
        },
    }
}

/// What the device does with a request.
#[derive(Clone, Copy, Debug, PartialEq, Eq, Structural)]
pub enum RequestAction {
    /// Read from the image at this offset into the data descriptors.
    Read { file_off: u64 },
    /// Write the data descriptors into the image at this offset.
    Write { file_off: u64 },
    /// Flush the image.
    Flush,
    /// Answer the drive's id.
    GetId,
    /// Answer with this status without touching the image.
    Status(u8),
}

/// The action for a request with this header on a drive whose image is
/// `file_len` bytes: reads and writes must fit the image, writes to a
/// read-only drive and unknown types fail with a status.
pub open spec fn request_action(drive_id: Seq<char>, file_len: u64, read_only: bool, hdr: VirtioBlkOutHdr, data_len: u64) -> Result<RequestAction, Seq<char>> {
    if hdr.sector * 512 > u64::MAX {
        Err("virtio-blk sector overflow: "@ + dec(hdr.sector as nat))
    } else {
        let off = (hdr.sector * 512) as u64;
        if hdr.type_ == VIRTIO_BLK_T_IN {
            match image_range_check(drive_id, file_len, off, data_len) {
                Err(m) => Err(m),
                Ok(_) => Ok(RequestAction::Read { file_off: off }),
            }
        } else if hdr.type_ == VIRTIO_BLK_T_OUT {
            if read_only {
                Ok(RequestAction::Status(VIRTIO_BLK_S_IOERR))
            } else {
                match image_range_check(drive_id, file_len, off, data_len) {
                    Err(m) => Err(m),
                    Ok(_) => Ok(RequestAction::Write { file_off: off }),
                }
            }
        } else if hdr.type_ == VIRTIO_BLK_T_FLUSH {
            Ok(RequestAction::Flush)
        } else if hdr.type_ == VIRTIO_BLK_T_GET_ID {
            Ok(RequestAction::GetId)
        } else {
            Ok(RequestAction::Status(VIRTIO_BLK_S_UNSUPP))
        }
    }
}

/// A read or a write is only planned within the backing image, at the byte
/// offset of its sector: the planned range `[file_off, file_off + data_len)`
/// ends at or before `file_len`.
pub proof fn lemma_planned_io_fits_image(drive_id: Seq<char>, file_len: u64, read_only: bool, hdr: VirtioBlkOutHdr, data_len: u64)
    ensures
        request_action(drive_id, file_len, read_only, hdr, data_len) matches Ok(RequestAction::Read { file_off })
            ==> file_off == hdr.sector * 512 && file_off + data_len <= file_len && hdr.type_ == VIRTIO_BLK_T_IN,
        request_action(drive_id, file_len, read_only, hdr, data_len) matches Ok(RequestAction::Write { file_off })
            ==> file_off == hdr.sector * 512 && file_off + data_len <= file_len && hdr.type_ == VIRTIO_BLK_T_OUT
            && !read_only,
{
}

/// Which reads and writes are served: a read, or a write to a writable
/// drive, whose range lies within the image is planned at its sector's
/// offset; one that reaches past the image's end is refused with an error;
/// a write to a read-only drive is answered with an I/O error status.
pub proof fn lemma_io_served_iff_in_image(drive_id: Seq<char>, file_len: u64, read_only: bool, hdr: VirtioBlkOutHdr, data_len: u64)
    requires
        hdr.sector * 512 <= u64::MAX,
    ensures
        hdr.type_ == VIRTIO_BLK_T_IN && hdr.sector * 512 + data_len <= file_len ==> request_action(
            drive_id,
            file_len,
            read_only,
            hdr,
            data_len,
        ) == Ok::<RequestAction, Seq<char>>(RequestAction::Read { file_off: (hdr.sector * 512) as u64 }),
        hdr.type_ == VIRTIO_BLK_T_OUT && !read_only && hdr.sector * 512 + data_len <= file_len ==> request_action(
            drive_id,
            file_len,
            read_only,
            hdr,
            data_len,
        ) == Ok::<RequestAction, Seq<char>>(RequestAction::Write { file_off: (hdr.sector * 512) as u64 }),
        (hdr.type_ == VIRTIO_BLK_T_IN || hdr.type_ == VIRTIO_BLK_T_OUT && !read_only) && hdr.sector * 512 + data_len
            > file_len ==> request_action(drive_id, file_len, read_only, hdr, data_len) is Err,
        hdr.type_ == VIRTIO_BLK_T_OUT && read_only ==> request_action(drive_id, file_len, read_only, hdr, data_len)
            == Ok::<RequestAction, Seq<char>>(RequestAction::Status(VIRTIO_BLK_S_IOERR)),
{
}

pub fn plan_request(drive_id: &str, file_len: u64, read_only: bool, hdr: &VirtioBlkOutHdr, data_len: u64) -> (r: Result<RequestAction, String>)
    ensures
        same_result(r, request_action(drive_id@, file_len, read_only, *hdr, data_len)),
{
    let off = match hdr.sector.checked_mul(512) {
        Some(o) => o,
        None => {
            let mut m = String::new();
            push_str(&mut m, "virtio-blk sector overflow: ");
            push_dec(&mut m, hdr.sector);
            return Err(m);
        },
    };
    if hdr.type_ == VIRTIO_BLK_T_IN {
        check_image_range(drive_id, file_len, off, data_len)?;
        Ok(RequestAction::Read { file_off: off })
    } else if hdr.type_ == VIRTIO_BLK_T_OUT {
        if read_only {
            Ok(RequestAction::Status(VIRTIO_BLK_S_IOERR))
        } else {
            check_image_range(drive_id, file_len, off, data_len)?;
            Ok(RequestAction::Write { file_off: off })
        }
    } else if hdr.type_ == VIRTIO_BLK_T_FLUSH {
        Ok(RequestAction::Flush)
    } else if hdr.type_ == VIRTIO_BLK_T_GET_ID {
        Ok(RequestAction::GetId)
    } else {
        Ok(RequestAction::Status(VIRTIO_BLK_S_UNSUPP))
    }
}

/// The id of the drive as the guest reads it, NUL-terminated.
pub open spec fn drive_id_bytes() -> Seq<u8> {
    seq![101u8, 113, 118, 105, 115, 111, 114, 45, 114, 111, 111, 116, 102, 115, 0]
}

/// The bytes written into a get-id descriptor of `len` bytes: the id,
/// truncated or padded with zeros.
pub open spec fn get_id_buffer(len: nat) -> Seq<u8> {
    Seq::new(len, |i: int| if i < drive_id_bytes().len() { drive_id_bytes()[i] } else { 0u8 })
}

pub fn drive_id_buffer(len: u32) -> (r: Vec<u8>)
    ensures
        r@ == get_id_buffer(len as nat),
{
    let id: Vec<u8> = vec![101u8, 113, 118, 105, 115, 111, 114, 45, 114, 111, 111, 116, 102, 115, 0];
    assert(id@ =~= drive_id_bytes());
    let mut buf: Vec<u8> = Vec::new();
    let mut i: u32 = 0;
    while i < len
        invariant
            i <= len,
            id@ == drive_id_bytes(),
            buf@.len() == i,
            forall|k: int| 0 <= k < i ==> #[trigger] buf@[k] == (if k < drive_id_bytes().len() { drive_id_bytes()[k] } else { 0u8 }),
        decreases len - i,
    {
        if (i as usize) < id.len() {
            buf.push(id[i as usize]);
        } else {
            buf.push(0);
        }
        i = i + 1;
    }
    assert(buf@ =~= get_id_buffer(len as nat));
    buf
}

/// Whether a data descriptor may be written by the device.
pub open spec fn device_writable(d: VringDesc) -> bool {
    d.flags & VRING_DESC_F_WRITE != 0
}

/// The status descriptor must be writable and at least a byte long.
pub fn check_status_desc(d: &VringDesc) -> (r: Result<(), String>)
    ensures
        r is Ok <==> d.len != 0 && device_writable(*d),
        r matches Err(m) ==> m@ == "invalid virtio-blk status descriptor"@,
{
    if d.len == 0 || d.flags & VRING_DESC_F_WRITE == 0 {
        Err(str_string("invalid virtio-blk status descriptor"))
    } else {
        Ok(())
    }
}

/// The length reported in the used ring: the bytes written into the
/// guest's data buffers and the status byte.
pub fn used_len(written: u32) -> (r: u32)
    requires
        written < u32::MAX,
    ensures
        r == written + 1,
{
    written + 1
}

/// How many requests the guest has made available since `last`, with the
/// ring indices wrapping at 2^16.
pub open spec fn pending_requests(last: u16, avail_idx: u16) -> int {
    (avail_idx - last) % 0x10000
}

pub fn pending_request_count(last: u16, avail_idx: u16) -> (r: u16)
    ensures
        r == pending_requests(last, avail_idx),
        r == 0 <==> last == avail_idx,
{
    if avail_idx >= last {
        avail_idx - last
    } else {
        (0x1_0000u32 - last as u32 + avail_idx as u32) as u16
    }
}

/// The chunks, each at most [`COPY_CHUNK_SIZE`] bytes, in which `len` bytes
/// are copied: the chunk at `done` bytes in.
pub open spec fn chunk_at(len: u64, done: u64) -> u64 {
    if len - done < COPY_CHUNK_SIZE {
        (len - done) as u64
    } else {
        COPY_CHUNK_SIZE
    }
}

pub fn copy_chunk(len: u64, done: u64) -> (r: u64)
    requires
        done < len,
    ensures
        r == chunk_at(len, done),
        0 < r <= COPY_CHUNK_SIZE,
        done + r <= len,
{
    let rem = len - done;
    if rem < COPY_CHUNK_SIZE {
        rem
    } else {
        COPY_CHUNK_SIZE
    }
}

/// Entries in the block notify ring.
pub const MICROVM_BLOCK_NOTIFY_RING_SIZE: usize = 64;
/// The value a valid block notify page starts with.
pub const MICROVM_BLOCK_NOTIFY_MAGIC: u32 = 0x4b4c_4e42;

/// The host's cursor on the block notify ring.
#[derive(Clone, Copy, Debug, PartialEq, Eq, Structural)]
pub struct BlockNotifySession {
    pub tail: u32,
}

/// Attaches to the block notify ring of instance `instance_id` at
/// `ring_gpa`: the address must be set (block drives need the ring), and
/// `header` is what mapping it gave, the mapping error or its magic and
/// tail; the session starts at that tail.
pub fn attach_block_notify(instance_id: u64, ring_gpa: u64, header: Result<(u32, u32), String>) -> (r: Result<
    BlockNotifySession,
    String,
>)
    ensures
        ring_gpa == 0 ==> r is Err && r->Err_0@ == "block drives configured for instance "@ + dec(instance_id as nat)
            + ", but notify ring GPA is zero"@,
        ring_gpa != 0 ==> match header {
            Err(e) => r is Err && r->Err_0@ == e@,
            Ok((magic, tail)) => if magic != MICROVM_BLOCK_NOTIFY_MAGIC {
                r is Err && r->Err_0@ == "block notify ring magic mismatch for instance "@ + dec(instance_id as nat)
                    + ": got "@ + hex(magic as nat) + ", expected "@ + hex(MICROVM_BLOCK_NOTIFY_MAGIC as nat)
            } else {
                r == Ok::<BlockNotifySession, String>(BlockNotifySession { tail })
            },
        },
{
    if ring_gpa == 0 {
        let mut m = String::new();
        push_str(&mut m, "block drives configured for instance ");
        push_dec(&mut m, instance_id);
        push_str(&mut m, ", but notify ring GPA is zero");
        return Err(m);
    }
    match header {
        Err(e) => Err(e),
        Ok((magic, tail)) => {
            if magic != MICROVM_BLOCK_NOTIFY_MAGIC {
                let mut m = String::new();
                push_str(&mut m, "block notify ring magic mismatch for instance ");
                push_dec(&mut m, instance_id);
                push_str(&mut m, ": got ");
                push_hex(&mut m, magic as u64);
                push_str(&mut m, ", expected ");
                push_hex(&mut m, MICROVM_BLOCK_NOTIFY_MAGIC as u64);
                Err(m)
            } else {
                Ok(BlockNotifySession { tail })
            }
        },
    }
}

impl BlockNotifySession {
    /// Takes the next notification: the entry at the session's tail, unless
    /// the tail has reached the ring's `head`; the tail then moves on (the
    /// caller publishes it back to the ring).
    pub fn pop(&mut self, head: u32, entries: &Vec<BlockNotifyEntry>) -> (r: Option<BlockNotifyEntry>)
        requires
            entries@.len() == MICROVM_BLOCK_NOTIFY_RING_SIZE,
        ensures
            old(self).tail == head ==> r is None && *final(self) == *old(self),
            old(self).tail != head ==> r == Some(entries@[old(self).tail as int % MICROVM_BLOCK_NOTIFY_RING_SIZE as int])
                && final(self).tail == ((old(self).tail as int + 1) % 0x1_0000_0000) as u32,
    {
        if self.tail == head {
            return None;
        }
        let idx = (self.tail as usize) % MICROVM_BLOCK_NOTIFY_RING_SIZE;
        let entry = entries[idx];
        self.tail = self.tail.wrapping_add(1);
        Some(entry)
    }
}

} // verus!
