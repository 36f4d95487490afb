//! Host-side handling of a VFIO passthrough device: finding capabilities in
//! its PCI config space, the MSI-X table layout, the register values that
//! keep the device usable, and the checks on what VFIO reports.
use vstd::prelude::*;
use crate::command::{same_result, str_string};
use crate::text::{dec, push_dec, push_str};

verus! {

pub const PCI_CAP_PTR_OFFSET: usize = 0x34;
pub const PCI_CAP_ID_PM: u8 = 0x01;
pub const PCI_CAP_ID_MSIX: u8 = 0x11;
pub const PCI_COMMAND_REG_OFFSET: u64 = 0x04;
pub const PCI_COMMAND_MEMORY: u16 = 2;
pub const PCI_COMMAND_BUS_MASTER: u16 = 4;
pub const PCI_PMCSR_OFFSET_IN_CAP: u64 = 0x04;
pub const PCI_MSIX_FLAGS_OFFSET_IN_CAP: u64 = 0x02;
pub const PCI_MSIX_FLAGS_MASKALL: u16 = 0x4000;
pub const PCI_MSIX_FLAGS_ENABLE: u16 = 0x8000;
pub const MAX_MSIX_EVENT_FDS: usize = 64;
pub const PCI_MSIX_TABLE_ENTRY_SIZE: u64 = 16;
/// How many interrupts one eventfd read forwards at most.
pub const MAX_FORWARDS_PER_READ: u64 = 128;

/// Follows a capability list in a config snapshot of `cfg_len` valid bytes,
/// from `ptr`, for at most 64 hops; it stops at a pointer below `0x40`,
/// past the snapshot, to zero or to itself.
pub open spec fn cap_walk(s: Seq<u8>, cfg_len: int, ptr: int, hops: int, cap_id: u8) -> Option<usize>
    decreases 64 - hops,
{
    if !(ptr >= 0x40 && ptr + 1 < cfg_len && hops < 64) {
        None
    } else if s[ptr] == cap_id {
        Some(ptr as usize)
    } else {
        let next = (s[ptr + 1] & 0xfc) as int;
        if next == 0 || next == ptr {
            None
        } else {
            cap_walk(s, cfg_len, next, hops + 1, cap_id)
        }
    }
}

/// Where a capability is in a config snapshot, following the list from the
/// capability pointer; none when the snapshot stops at the standard header.
pub open spec fn snapshot_capability(s: Seq<u8>, cfg_len: int, cap_id: u8) -> Option<usize> {
    if cfg_len <= 0x40 {
        None
    } else {
        cap_walk(s, cfg_len, (s[0x34] & 0xfc) as int, 0, cap_id)
    }
}

pub fn find_capability_in_snapshot(snapshot: &Vec<u8>, cfg_len: usize, cap_id: u8) -> (r: Option<usize>)
    requires
        cfg_len <= snapshot@.len(),
    ensures
        r == snapshot_capability(snapshot@, cfg_len as int, cap_id),
        r matches Some(c) ==> c < 0x100,
{
    if cfg_len <= 0x40 {
        return None;
    }
    let mut cap_ptr: usize = (snapshot[0x34] & 0xfc) as usize;
    let mut hops: usize = 0;
    while cap_ptr >= 0x40 && cap_ptr + 1 < cfg_len && hops < 64
        invariant
            cfg_len <= snapshot@.len(),
            cfg_len > 0x40,
            cap_ptr < 0x100,
            hops <= 64,
            snapshot_capability(snapshot@, cfg_len as int, cap_id) == cap_walk(snapshot@, cfg_len as int, cap_ptr as int, hops as int, cap_id),
        decreases 64 - hops,
    {
        if snapshot[cap_ptr] == cap_id {
            return Some(cap_ptr);
        }
        let next = (snapshot[cap_ptr + 1] & 0xfc) as usize;
        if next == 0 || next == cap_ptr {
            return None;
        }
        cap_ptr = next;
        hops = hops + 1;
    }
    None
}

/// Little-endian reads from a snapshot.
pub open spec fn le16(s: Seq<u8>, off: int) -> int {
    s[off] + s[off + 1] * 0x100
}

pub open spec fn le32(s: Seq<u8>, off: int) -> int {
    s[off] + s[off + 1] * 0x100 + s[off + 2] * 0x1_0000 + s[off + 3] * 0x100_0000
}

pub fn read_snapshot_u16(snapshot: &Vec<u8>, off: usize) -> (r: Option<u16>)
    ensures
        match r {
            Some(v) => off + 2 <= snapshot@.len() && v == le16(snapshot@, off as int),
            None => off + 2 > snapshot@.len(),
        },
{
    if off > snapshot.len() || snapshot.len() - off < 2 {
        return None;
    }
    Some(snapshot[off] as u16 + snapshot[off + 1] as u16 * 0x100)
}

pub fn read_snapshot_u32(snapshot: &Vec<u8>, off: usize) -> (r: Option<u32>)
    ensures
        match r {
            Some(v) => off + 4 <= snapshot@.len() && v == le32(snapshot@, off as int),
            None => off + 4 > snapshot@.len(),
        },
{
    if off > snapshot.len() || snapshot.len() - off < 4 {
        return None;
    }
    Some(snapshot[off] as u32 + snapshot[off + 1] as u32 * 0x100 + snapshot[off + 2] as u32 * 0x1_0000
        + snapshot[off + 3] as u32 * 0x100_0000)
}

/// The MSI-X table of a device: its size in entries, the BAR it is in and
/// its offset there.
#[derive(Clone, Copy, Debug, PartialEq, Eq, Structural)]
pub struct MsixTable {
    pub size: usize,
    pub bir: u32,
    pub offset: u64,
}

/// What the config snapshot says of MSI-X: where its control register is,
/// and the table when the capability lies wholly within the snapshot.
#[derive(Clone, Copy, Debug, PartialEq, Eq, Structural)]
pub struct MsixInfo {
    pub ctrl_off: u64,
    pub table: Option<MsixTable>,
}

pub open spec fn msix_info(s: Seq<u8>, cfg_len: int) -> Option<MsixInfo> {
    match snapshot_capability(s, cfg_len, PCI_CAP_ID_MSIX) {
        None => None,
        Some(cap) => Some(MsixInfo {
            ctrl_off: (cap + PCI_MSIX_FLAGS_OFFSET_IN_CAP) as u64,
            table: if cap + 2 + 2 <= s.len() && cap + 4 + 4 <= s.len() {
                let ctrl = le16(s, cap + 2);
                let table = le32(s, cap + 4);
                Some(MsixTable {
                    size: ((ctrl % 0x800) + 1) as usize,
                    bir: (table % 8) as u32,
                    offset: (table - table % 8) as u64,
                })
            } else {
                None
            },
        }),
    }
}

/// The MSI-X capability of a device from its config snapshot (see
/// [`msix_info`]).
pub fn msix_from_snapshot(snapshot: &Vec<u8>, cfg_len: usize) -> (r: Option<MsixInfo>)
    requires
        cfg_len <= snapshot@.len(),
    ensures
        r == msix_info(snapshot@, cfg_len as int),
{
    let cap = match find_capability_in_snapshot(snapshot, cfg_len, PCI_CAP_ID_MSIX) {
        None => return None,
        Some(c) => c,
    };
    let table = match (read_snapshot_u16(snapshot, cap + 2), read_snapshot_u32(snapshot, cap + 4)) {
        (Some(ctrl), Some(t)) => Some(MsixTable {
            size: (ctrl % 0x800) as usize + 1,
            bir: t % 8,
            offset: (t - t % 8) as u64,
        }),
        _ => None,
    };
    Some(MsixInfo { ctrl_off: cap as u64 + PCI_MSIX_FLAGS_OFFSET_IN_CAP, table })
}

/// Walks the live capability list (in a full 256-byte read of the config
/// space), from `ptr`, for at most 64 hops; `None` sends the search to the
/// fallback scan.
pub open spec fn live_cap_walk(cfg: Seq<u8>, ptr: int, hops: int, cap_id: u8) -> Option<u64>
    decreases 64 - hops,
{
    if !(ptr >= 0x40 && ptr < 0x100 && hops < 64) {
        None
    } else if cfg[ptr] == cap_id {
        Some(ptr as u64)
    } else if cfg[ptr + 1] == 0 {
        None
    } else {
        live_cap_walk(cfg, (cfg[ptr + 1] & 0xfc) as int, hops + 1, cap_id)
    }
}

/// The fallback: the first dword-aligned offset from `off` up to `0x100`
/// that holds the capability id.
pub open spec fn cap_scan(cfg: Seq<u8>, off: int, cap_id: u8) -> Option<u64>
    decreases 0x104 - off,
{
    if off >= 0x100 {
        None
    } else if cfg[off] == cap_id {
        Some(off as u64)
    } else {
        cap_scan(cfg, off + 4, cap_id)
    }
}

/// Where a capability is in the live config space: by the list, else by
/// scanning, since some devices break the list.
pub open spec fn live_capability(cfg: Seq<u8>, cap_id: u8) -> Option<u64> {
    match live_cap_walk(cfg, (cfg[0x34] & 0xfc) as int, 0, cap_id) {
        Some(p) => Some(p),
        None => cap_scan(cfg, 0x40, cap_id),
    }
}

pub fn find_pci_capability(cfg: &Vec<u8>, cap_id: u8) -> (r: Option<u64>)
    requires
        cfg@.len() == 0x100,
    ensures
        r == live_capability(cfg@, cap_id),
{
    let b = cfg[0x34];
    assert(b & 0xfc <= 0xfc) by (bit_vector);
    let mut ptr: usize = (b & 0xfc) as usize;
    let mut hops: usize = 0;
    let ghost start = (cfg@[0x34] & 0xfc) as int;
    while ptr >= 0x40 && ptr < 0x100 && hops < 64
        invariant
            cfg@.len() == 0x100,
            hops <= 64,
            ptr <= 0xfc,
            start == (cfg@[0x34] & 0xfc) as int,
            live_cap_walk(cfg@, start, 0, cap_id) == live_cap_walk(cfg@, ptr as int, hops as int, cap_id),
        ensures
            live_cap_walk(cfg@, start, 0, cap_id) is None,
        decreases 64 - hops,
    {
        if cfg[ptr] == cap_id {
            assert(live_cap_walk(cfg@, ptr as int, hops as int, cap_id) == Some(ptr as u64));
            assert(live_cap_walk(cfg@, ptr as int, hops as int, cap_id) == Some(ptr as u64));
            return Some(ptr as u64);
        }
        let next = cfg[ptr + 1];
        if next == 0 {
            break;
        }
        assert(next & 0xfc <= 0xfc) by (bit_vector);
        ptr = (next & 0xfc) as usize;
        hops = hops + 1;
    }
    let mut off: usize = 0x40;
    while off < 0x100
        invariant
            cfg@.len() == 0x100,
            start == (cfg@[0x34] & 0xfc) as int,
            live_cap_walk(cfg@, start, 0, cap_id) is None,
            0x40 <= off <= 0x100,
            off % 4 == 0,
            cap_scan(cfg@, 0x40, cap_id) == cap_scan(cfg@, off as int, cap_id),
        decreases 0x100 - off,
    {
        if cfg[off] == cap_id {
            return Some(off as u64);
        }
        off = off + 4;
    }
    None
}

/// The command register with memory decoding and bus mastering on.
pub open spec fn ready_command(old_cmd: u16) -> u16 {
    old_cmd | PCI_COMMAND_MEMORY | PCI_COMMAND_BUS_MASTER
}

/// The power-management control register in power state D0.
pub open spec fn ready_pmcsr(old_pmcsr: u16) -> u16 {
    old_pmcsr & !3u16
}

/// The MSI-X control register enabled and not masked.
pub open spec fn ready_msix_ctrl(old_ctrl: u16) -> u16 {
    (old_ctrl | PCI_MSIX_FLAGS_ENABLE) & !PCI_MSIX_FLAGS_MASKALL
}

/// The register writes that keep the device ready: the new value of each
/// register, or `None` when it already holds it.
pub fn keep_ready_command(old_cmd: u16) -> (r: Option<u16>)
    ensures
        r == (if ready_command(old_cmd) != old_cmd { Some(ready_command(old_cmd)) } else { None }),
        r matches Some(v) ==> v & PCI_COMMAND_MEMORY != 0 && v & PCI_COMMAND_BUS_MASTER != 0,
{
    let new_cmd = old_cmd | PCI_COMMAND_MEMORY | PCI_COMMAND_BUS_MASTER;
    assert(new_cmd & 2 != 0 && new_cmd & 4 != 0) by (bit_vector)
        requires
            new_cmd == old_cmd | 2u16 | 4u16,
    ;
    if new_cmd != old_cmd {
        Some(new_cmd)
    } else {
        None
    }
}

pub fn keep_ready_pmcsr(old_pmcsr: u16) -> (r: Option<u16>)
    ensures
        r == (if ready_pmcsr(old_pmcsr) != old_pmcsr { Some(ready_pmcsr(old_pmcsr)) } else { None }),
        r matches Some(v) ==> v & 3 == 0,
{
    let new_pmcsr = old_pmcsr & !3u16;
    assert(new_pmcsr & 3 == 0) by (bit_vector)
        requires
            new_pmcsr == old_pmcsr & !3u16,
    ;
    if new_pmcsr != old_pmcsr {
        Some(new_pmcsr)
    } else {
        None
    }
}

pub fn keep_ready_msix_ctrl(old_ctrl: u16) -> (r: Option<u16>)
    ensures
        r == (if ready_msix_ctrl(old_ctrl) != old_ctrl { Some(ready_msix_ctrl(old_ctrl)) } else { None }),
        r matches Some(v) ==> v & PCI_MSIX_FLAGS_ENABLE != 0 && v & PCI_MSIX_FLAGS_MASKALL == 0,
{
    let new_ctrl = (old_ctrl | PCI_MSIX_FLAGS_ENABLE) & !PCI_MSIX_FLAGS_MASKALL;
    assert(new_ctrl & 0x8000 != 0 && new_ctrl & 0x4000 == 0) by (bit_vector)
        requires
            new_ctrl == (old_ctrl | 0x8000u16) & !0x4000u16,
    ;
    if new_ctrl != old_ctrl {
        Some(new_ctrl)
    } else {
        None
    }
}

/// The vector an MSI-X table entry delivers: the low byte of its message
/// data, unless the entry is masked or the vector is zero.
pub open spec fn entry_vector(msg_data: u32, vector_ctrl: u32) -> Option<u8> {
    let vector = (msg_data % 256) as u8;
    if vector_ctrl % 2 == 0 && vector != 0 {
        Some(vector)
    } else {
        None
    }
}

pub fn msix_entry_vector(msg_data: u32, vector_ctrl: u32) -> (r: Option<u8>)
    ensures
        r == entry_vector(msg_data, vector_ctrl),
{
    let vector = (msg_data % 256) as u8;
    if vector_ctrl % 2 == 0 && vector != 0 {
        Some(vector)
    } else {
        None
    }
}

/// How many table entries are sampled: the table size, capped by the
/// eventfds armed and by their maximum.
pub open spec fn sample_count(table_size: usize, event_count: usize) -> usize {
    let cap = if event_count < MAX_MSIX_EVENT_FDS { event_count } else { MAX_MSIX_EVENT_FDS };
    if table_size < cap { table_size } else { cap }
}

pub fn msix_sample_count(table_size: usize, event_count: usize) -> (r: usize)
    ensures
        r == sample_count(table_size, event_count),
        r <= MAX_MSIX_EVENT_FDS,
{
    let cap = if event_count < MAX_MSIX_EVENT_FDS { event_count } else { MAX_MSIX_EVENT_FDS };
    if table_size < cap { table_size } else { cap }
}

/// The BAR offset of table entry `idx`, if the whole entry lies in a BAR of
/// `bar_size` bytes.
pub fn msix_entry_offset(table_offset: u64, idx: usize, bar_size: u64) -> (r: Option<u64>)
    requires
        idx < MAX_MSIX_EVENT_FDS,
    ensures
        match r {
            Some(off) => off == table_offset + idx * PCI_MSIX_TABLE_ENTRY_SIZE
                && off + PCI_MSIX_TABLE_ENTRY_SIZE <= bar_size,
            None => table_offset + idx * PCI_MSIX_TABLE_ENTRY_SIZE + PCI_MSIX_TABLE_ENTRY_SIZE > bar_size,
        },
{
    let rel = idx as u64 * PCI_MSIX_TABLE_ENTRY_SIZE;
    if table_offset > bar_size || bar_size - table_offset < rel || bar_size - table_offset - rel < PCI_MSIX_TABLE_ENTRY_SIZE {
        None
    } else {
        Some(table_offset + rel)
    }
}

/// How many interrupts to forward for an eventfd count.
pub fn forward_count(event_cnt: u64) -> (r: u64)
    ensures
        r == (if event_cnt < MAX_FORWARDS_PER_READ { event_cnt } else { MAX_FORWARDS_PER_READ }),
{
    if event_cnt < MAX_FORWARDS_PER_READ { event_cnt } else { MAX_FORWARDS_PER_READ }
}

/// The number of MSI-X vectors VFIO reports must be between one and the
/// eventfd maximum.
pub open spec fn msix_count_check(count: u32) -> Result<usize, Seq<char>> {
    if count == 0 {
        Err("VFIO MSI-X irq count is zero"@)
    } else if count > MAX_MSIX_EVENT_FDS {
        Err("VFIO MSI-X vectors "@ + dec(count as nat) + " exceed supported max "@ + dec(MAX_MSIX_EVENT_FDS as nat))
    } else {
        Ok(count as usize)
    }
}

pub fn check_msix_irq_count(count: u32) -> (r: Result<usize, String>)
    ensures
        same_result(r, msix_count_check(count)),
{
    if count == 0 {
        Err(str_string("VFIO MSI-X irq count is zero"))
    } else if count as usize > MAX_MSIX_EVENT_FDS {
        let mut m = String::new();
        push_str(&mut m, "VFIO MSI-X vectors ");
        push_dec(&mut m, count as u64);
        push_str(&mut m, " exceed supported max ");
        push_dec(&mut m, MAX_MSIX_EVENT_FDS as u64);
        Err(m)
    } else {
        Ok(count as usize)
    }
}

/// The config region must reach past the command register.
pub fn check_config_region(size: u64) -> (r: bool)
    ensures
        r == (size >= PCI_COMMAND_REG_OFFSET + 2),
{
    size >= PCI_COMMAND_REG_OFFSET + 2
}

/// The payload of `VFIO_DEVICE_SET_IRQS` that hands the device one eventfd
/// per vector: the header (argsz, flags, index, start, count) and the
/// eventfds, each a little-endian 32-bit word.
pub open spec fn le_word(v: u32) -> Seq<u8> {
    seq![(v % 0x100) as u8, ((v / 0x100) % 0x100) as u8, ((v / 0x1_0000) % 0x100) as u8, (v / 0x100_0000) as u8]
}

pub open spec fn words_bytes(ws: Seq<u32>) -> Seq<u8>
    decreases ws.len(),
{
    if ws.len() == 0 {
        Seq::empty()
    } else {
        words_bytes(ws.drop_last()) + le_word(ws.last())
    }
}

pub const VFIO_IRQ_SET_DATA_EVENTFD: u32 = 4;
pub const VFIO_IRQ_SET_ACTION_TRIGGER: u32 = 0x20;
pub const VFIO_PCI_MSIX_IRQ_INDEX: u32 = 2;

pub open spec fn irq_set_words(fds: Seq<i32>) -> Seq<u32> {
    seq![(20 + 4 * fds.len()) as u32, VFIO_IRQ_SET_ACTION_TRIGGER | VFIO_IRQ_SET_DATA_EVENTFD,
        VFIO_PCI_MSIX_IRQ_INDEX, 0u32, fds.len() as u32] + fds.map_values(|f: i32| f as u32)
}

fn push_le_word(v: &mut Vec<u8>, w: u32)
    ensures
        final(v)@ == old(v)@ + le_word(w),
{
    v.push((w % 0x100) as u8);
    v.push(((w / 0x100) % 0x100) as u8);
    v.push(((w / 0x1_0000) % 0x100) as u8);
    v.push((w / 0x100_0000) as u8);
    assert(final(v)@ =~= old(v)@ + le_word(w));
}

pub fn msix_irq_set_payload(fds: &Vec<i32>) -> (r: Vec<u8>)
    requires
        1 <= fds@.len() <= MAX_MSIX_EVENT_FDS,
    ensures
        r@ == words_bytes(irq_set_words(fds@)),
        r@.len() == 20 + 4 * fds@.len(),
{
    let ghost ws = irq_set_words(fds@);
    let mut words: Vec<u32> = Vec::new();
    words.push((20 + 4 * fds.len()) as u32);
    words.push(VFIO_IRQ_SET_ACTION_TRIGGER | VFIO_IRQ_SET_DATA_EVENTFD);
    words.push(VFIO_PCI_MSIX_IRQ_INDEX);
    words.push(0);
    words.push(fds.len() as u32);
    let mut i: usize = 0;
    while i < fds.len()
        invariant
            i <= fds@.len() <= MAX_MSIX_EVENT_FDS,
            ws == irq_set_words(fds@),
            words@ == ws.subrange(0, 5 + i),
        decreases fds.len() - i,
    {
        words.push(fds[i] as u32);
        i = i + 1;
        assert(words@ =~= ws.subrange(0, 5 + i));
    }
    assert(words@ =~= ws);
    let mut out: Vec<u8> = Vec::new();
    let mut j: usize = 0;
    while j < words.len()
        invariant
            j <= words@.len(),
            out@ == words_bytes(words@.subrange(0, j as int)),
            out@.len() == 4 * j,
        decreases words.len() - j,
    {
        proof {
            assert(words@.subrange(0, j as int + 1).drop_last() =~= words@.subrange(0, j as int));
        }
        push_le_word(&mut out, words[j]);
        j = j + 1;
    }
    assert(words@.subrange(0, words@.len() as int) =~= words@);
    out
}

/// Whether an eventfd's interrupts are forwarded in software: not while
/// the route is offloaded to posted interrupts, unless the fallback is
/// forced on.
pub fn forwards_in_software(posted_route_active: bool, fallback_forced: bool) -> (r: bool)
    ensures
        r == (!posted_route_active || fallback_forced),
{
    !posted_route_active || fallback_forced
}

/// How a refresh of a posted-interrupt route changed it.
#[derive(Clone, Copy, Debug, PartialEq, Eq, Structural)]
pub enum RouteChange {
    /// The route now goes through posted interrupts.
    Offloaded,
    /// The route fell back to software forwarding.
    FellBack,
    /// Still forwarded in software, posted interrupts not ready.
    NotReady,
    /// Nothing changed.
    Unchanged,
}

/// The route's state after a refresh that reported `posted` (`None`: the
/// refresh failed, which changes nothing), and what changed.
pub fn refresh_route(active: bool, posted: Option<bool>) -> (r: (bool, RouteChange))
    ensures
        posted is None ==> r == (active, RouteChange::Unchanged),
        posted == Some(true) ==> r == (true, if active { RouteChange::Unchanged } else { RouteChange::Offloaded }),
        posted == Some(false) ==> r == (false, if active { RouteChange::FellBack } else { RouteChange::NotReady }),
{
    match posted {
        None => (active, RouteChange::Unchanged),
        Some(true) => (true, if active { RouteChange::Unchanged } else { RouteChange::Offloaded }),
        Some(false) => (false, if active { RouteChange::FellBack } else { RouteChange::NotReady }),
    }
}

/// Milliseconds between two keepalive writes of the device's registers.
pub const KEEPALIVE_INTERVAL_MS: u64 = 2000;
/// Milliseconds between two samples of the MSI-X table.
pub const SAMPLE_INTERVAL_MS: u64 = 100;
/// Milliseconds between two route refreshes while the device starts up.
pub const ROUTE_REFRESH_FAST_MS: u64 = 20;
/// Milliseconds between two route refreshes afterwards.
pub const ROUTE_REFRESH_SLOW_MS: u64 = 100;
/// How long after the daemon starts routes are refreshed at the fast rate.
pub const ROUTE_REFRESH_FAST_WINDOW_MS: u64 = 30_000;

/// When the periodic work of the passthrough daemon last ran (`None`:
/// never), in milliseconds since the daemon started.
#[derive(Clone, Copy, Debug, PartialEq, Eq, Structural)]
pub struct VfioTimers {
    pub last_keepalive: Option<u64>,
    pub last_sample: Option<u64>,
    pub last_route_refresh: Option<u64>,
}

/// The periodic work due at one pass of the daemon loop.
#[derive(Clone, Copy, Debug, PartialEq, Eq, Structural)]
pub struct VfioDue {
    pub sample: bool,
    pub route_refresh: bool,
    pub keepalive: bool,
}

/// Whether work last done at `last` is due again at `now` after `interval`.
pub open spec fn is_due(last: Option<u64>, now: u64, interval: u64) -> bool {
    match last {
        None => true,
        Some(t) => now >= t + interval,
    }
}

pub open spec fn route_interval(now: u64) -> u64 {
    if now < ROUTE_REFRESH_FAST_WINDOW_MS {
        ROUTE_REFRESH_FAST_MS
    } else {
        ROUTE_REFRESH_SLOW_MS
    }
}

fn due(last: Option<u64>, now: u64, interval: u64) -> (r: bool)
    ensures
        r == is_due(last, now, interval),
{
    match last {
        None => true,
        Some(t) => now >= t && now - t >= interval,
    }
}

impl VfioTimers {
    /// Nothing has run yet: all the work is due at the first pass.
    pub fn new() -> (r: Self)
        ensures
            r.last_keepalive is None && r.last_sample is None && r.last_route_refresh is None,
    {
        VfioTimers { last_keepalive: None, last_sample: None, last_route_refresh: None }
    }

    /// Decides the work due at `now` (milliseconds since the daemon
    /// started) and records it as done then. Routes are refreshed every
    /// 20 ms for the first 30 s, every 100 ms after.
    pub fn tick(&mut self, now: u64) -> (r: VfioDue)
        ensures
            r.sample == is_due(old(self).last_sample, now, SAMPLE_INTERVAL_MS),
            r.route_refresh == is_due(old(self).last_route_refresh, now, route_interval(now)),
            r.keepalive == is_due(old(self).last_keepalive, now, KEEPALIVE_INTERVAL_MS),
            final(self).last_sample == (if r.sample { Some(now) } else { old(self).last_sample }),
            final(self).last_route_refresh == (if r.route_refresh { Some(now) } else { old(self).last_route_refresh }),
            final(self).last_keepalive == (if r.keepalive { Some(now) } else { old(self).last_keepalive }),
    {
        let interval = if now < ROUTE_REFRESH_FAST_WINDOW_MS { ROUTE_REFRESH_FAST_MS } else { ROUTE_REFRESH_SLOW_MS };
        let d = VfioDue {
            sample: due(self.last_sample, now, SAMPLE_INTERVAL_MS),
            route_refresh: due(self.last_route_refresh, now, interval),
            keepalive: due(self.last_keepalive, now, KEEPALIVE_INTERVAL_MS),
        };
        if d.sample {
            self.last_sample = Some(now);
        }
        if d.route_refresh {
            self.last_route_refresh = Some(now);
        }
        if d.keepalive {
            self.last_keepalive = Some(now);
        }
        d
    }
}

/// Work that ran at `now` is not due again before its interval has passed.
pub proof fn lemma_tick_spaces_work(now: u64, later: u64, interval: u64)
    requires
        now <= later < now + interval,
    ensures
        !is_due(Some(now), later, interval),
{
}

} // verus!
