//! The HyperAlloc query record that the hypervisor reports for an instance,
//! the names of its codes, and the host-side policy evaluation over it.
use vstd::prelude::*;
use crate::report::{Field, FieldValue, fields_text, render};
use crate::text::{chars_eq_str, parse_uint, spec_parse_uint, IntErrorKind};

verus! {

/// Version of the HyperAlloc request and query records.
pub const HYPERALLOC_VERSION: u32 = 1;
/// Size of one HyperAlloc huge frame in bytes.
pub const HYPERALLOC_HUGE_PAGE_SIZE: u64 = 0x20_0000;

pub const QUERY_FLAG_PHYSICAL_RELEASE_ALLOWED: u32 = 1;
pub const QUERY_FLAG_PERSISTENT_HOST_RAM_CONSUMERS: u32 = 2;
pub const QUERY_FLAG_RETAIN_HPA: u32 = 4;
pub const QUERY_FLAG_VFIO_PRESENT: u32 = 8;
pub const QUERY_FLAG_VFIO_DMA_DYNAMIC_SUPPORTED: u32 = 0x10;
pub const QUERY_FLAG_VFIO_DMA_DYNAMIC_ENABLED: u32 = 0x20;
pub const QUERY_FLAG_VFIO_DMA_BLOCKED_STALE_VMA: u32 = 0x40;
pub const QUERY_FLAG_VFIO_PHYSICAL_RECLAIM_BLOCKED: u32 = 0x80;
pub const QUERY_FLAG_EQGATE_BATCH_AVAILABLE: u32 = 0x100;
pub const QUERY_FLAG_EQGATE_ROOT_DRAIN_EXECUTE: u32 = 0x200;
pub const QUERY_FLAG_EQGATE_GUEST_HCALL_ENQUEUE: u32 = 0x400;
pub const QUERY_FLAG_EQGATE_DIRECT_EPT_IOMMU_UPDATE: u32 = 0x800;

pub const VFIO_DMA_OP_NONE: u32 = 0;
pub const VFIO_DMA_OP_MAP: u32 = 1;
pub const VFIO_DMA_OP_UNMAP: u32 = 2;

pub const VFIO_DMA_STATUS_NONE: u32 = 0;
pub const VFIO_DMA_STATUS_PENDING: u32 = 1;
pub const VFIO_DMA_STATUS_SUCCESS: u32 = 2;
pub const VFIO_DMA_STATUS_FAILED: u32 = 3;
pub const VFIO_DMA_STATUS_UNSUPPORTED: u32 = 4;

pub const MMAP_ZAP_STATUS_NONE: u32 = 0;
pub const MMAP_ZAP_STATUS_PENDING: u32 = 1;
pub const MMAP_ZAP_STATUS_SUCCESS: u32 = 2;
pub const MMAP_ZAP_STATUS_FAILED: u32 = 3;
pub const MMAP_ZAP_STATUS_UNSUPPORTED: u32 = 4;

pub const VFIO_RECLAIM_BLOCK_NONE: u32 = 0;
pub const VFIO_RECLAIM_BLOCK_STALE_VMA_POLICY: u32 = 1;
pub const VFIO_RECLAIM_BLOCK_GUEST_RAM_MMAP_ACTIVE: u32 = 2;
pub const VFIO_RECLAIM_BLOCK_GUEST_RAM_MMAP_STALE: u32 = 3;
pub const VFIO_RECLAIM_BLOCK_DYNAMIC_DMA_UNSUPPORTED: u32 = 4;
pub const VFIO_RECLAIM_BLOCK_DYNAMIC_DMA_DISABLED: u32 = 5;
pub const VFIO_RECLAIM_BLOCK_DMA_ROLLBACK_MISSING: u32 = 6;

pub const DEBUG_RECLAIM_FLAG_GUEST_RAM_PREZAPPED: u32 = 1;
pub const EQGATE_DRAIN_FLAG_EXECUTE: u32 = 1;

/// The HyperAlloc state of one instance as the hypervisor reports it.
#[derive(Clone, Copy, Debug, Default)]
pub struct HyperAllocQuery {
    pub version: u32,
    pub flags: u32,
    pub frame_count: u64,
    pub registered_frames: u64,
    pub installed_frames: u64,
    pub soft_reclaimed_frames: u64,
    pub hard_reclaimed_frames: u64,
    pub installing_frames: u64,
    pub reclaiming_frames: u64,
    pub logical_hard_reclaims: u64,
    pub logical_returns: u64,
    pub logical_installs: u64,
    pub logical_hard_reclaim_attempts: u64,
    pub logical_hard_reclaim_failures: u64,
    pub logical_install_attempts: u64,
    pub logical_install_failures: u64,
    pub last_logical_reclaim_us: u64,
    pub max_logical_reclaim_us: u64,
    pub last_logical_install_us: u64,
    pub max_logical_install_us: u64,
    pub physical_releases: u64,
    pub physical_allocations: u64,
    pub physically_released_frames: u64,
    pub last_physical_release_hpa: u64,
    pub last_physical_allocation_hpa: u64,
    pub pagecache_shrink_pending_requests: u64,
    pub pagecache_shrink_completed_requests: u64,
    pub pagecache_shrink_failed_requests: u64,
    pub last_pagecache_shrink_seq: u64,
    pub last_pagecache_shrink_target_huge_frames: u64,
    pub last_pagecache_shrink_target_pages: u64,
    pub last_pagecache_shrink_reclaimed_huge_frames: u64,
    pub last_pagecache_shrink_remaining_file_huge_frames: u64,
    pub last_pagecache_shrink_status: u32,
    pub last_pagecache_shrink_errno: i32,
    pub vfio_dma_pending_requests: u64,
    pub vfio_dma_completed_requests: u64,
    pub vfio_dma_failed_requests: u64,
    pub vfio_dma_outstanding: u64,
    pub last_vfio_dma_seq: u64,
    pub last_vfio_dma_op: u32,
    pub last_vfio_dma_status: u32,
    pub last_vfio_dma_iova: u64,
    pub last_vfio_dma_hpa: u64,
    pub last_vfio_dma_size: u64,
    pub last_vfio_dma_errno: i32,
    pub reclaim_dma_rollback_attempts: u64,
    pub reclaim_dma_rollback_successes: u64,
    pub reclaim_dma_rollback_failures: u64,
    pub install_ept_rollback_attempts: u64,
    pub install_ept_rollback_successes: u64,
    pub install_ept_rollback_failures: u64,
    pub vfio_guest_ram_mmap_generation: u64,
    pub vfio_guest_ram_mmap_active: u64,
    pub vfio_guest_ram_mmap_current: u64,
    pub vfio_guest_ram_mmap_stale: u64,
    pub vfio_guest_ram_mmap_update_seq: u64,
    pub vfio_guest_ram_mmap_last_reason: u32,
    pub guest_ram_mmap_zap_pending_requests: u64,
    pub guest_ram_mmap_zap_completed_requests: u64,
    pub guest_ram_mmap_zap_failed_requests: u64,
    pub guest_ram_mmap_zap_outstanding: u64,
    pub last_guest_ram_mmap_zap_seq: u64,
    pub last_guest_ram_mmap_zap_status: u32,
    pub last_guest_ram_mmap_zap_gpa: u64,
    pub last_guest_ram_mmap_zap_len: u64,
    pub last_guest_ram_mmap_zap_zapped_vmas: u64,
    pub last_guest_ram_mmap_zap_zapped_bytes: u64,
    pub last_guest_ram_mmap_zap_errno: i32,
    pub vfio_physical_reclaim_block_reason: u32,
    pub eqgate_hyperalloc_pcpu_count: u64,
    pub eqgate_hyperalloc_queue_capacity: u64,
    pub eqgate_hyperalloc_pending: u64,
    pub eqgate_hyperalloc_submitted: u64,
    pub eqgate_hyperalloc_drained: u64,
    pub eqgate_hyperalloc_dropped: u64,
    pub eqgate_hyperalloc_last_sequence: u64,
}

/// Frames of the instance that are not registered with HyperAlloc.
pub open spec fn unregistered_frames(q: HyperAllocQuery) -> u64 {
    if q.frame_count >= q.registered_frames {
        (q.frame_count - q.registered_frames) as u64
    } else {
        0
    }
}

/// `1` when the query carries `flag`, else `0`.
pub open spec fn spec_query_flag(q: HyperAllocQuery, flag: u32) -> u8 {
    if q.flags & flag != 0 {
        1
    } else {
        0
    }
}

pub fn hyperalloc_query_flag(q: &HyperAllocQuery, flag: u32) -> (r: u8)
    ensures
        r == spec_query_flag(*q, flag),
{
    if q.flags & flag != 0 {
        1
    } else {
        0
    }
}

/// Whether a page-cache shrink request is still outstanding.
pub open spec fn pagecache_outstanding(q: HyperAllocQuery) -> bool {
    q.pagecache_shrink_pending_requests > sat_add(
        q.pagecache_shrink_completed_requests,
        q.pagecache_shrink_failed_requests,
    )
}

/// `u64::saturating_add`.
pub open spec fn sat_add(a: u64, b: u64) -> u64 {
    if a + b > u64::MAX {
        u64::MAX
    } else {
        (a + b) as u64
    }
}

pub fn hyperalloc_pagecache_request_outstanding(q: &HyperAllocQuery) -> (r: bool)
    ensures
        r == pagecache_outstanding(*q),
{
    q.pagecache_shrink_pending_requests > q.pagecache_shrink_completed_requests.saturating_add(
        q.pagecache_shrink_failed_requests,
    )
}

/// What the host policy should do about the memory target.
#[derive(Clone, Copy, Debug, PartialEq, Eq, Structural)]
pub enum Decision {
    Hold,
    Wait,
    Eligible,
}

/// Why the policy decided as it did.
#[derive(Clone, Copy, Debug, PartialEq, Eq, Structural)]
pub enum Reason {
    VfioBlocked,
    MmapStale,
    Pending,
    BelowTarget,
    TargetChanged,
    Stable,
}

/// The policy decision for a memory target, in order of precedence: a VFIO
/// reclaim block or a stale guest-RAM mapping holds; an outstanding request
/// waits; no finished request yet, or a different last target, is eligible;
/// otherwise the target is stable.
pub open spec fn policy_eval(q: HyperAllocQuery, target: u64) -> (Decision, Reason) {
    if q.vfio_physical_reclaim_block_reason != 0 {
        (Decision::Hold, Reason::VfioBlocked)
    } else if q.vfio_guest_ram_mmap_stale != 0 {
        (Decision::Hold, Reason::MmapStale)
    } else if pagecache_outstanding(q) {
        (Decision::Wait, Reason::Pending)
    } else if q.last_pagecache_shrink_seq == 0 || sat_add(
        q.pagecache_shrink_completed_requests,
        q.pagecache_shrink_failed_requests,
    ) == 0 {
        (Decision::Eligible, Reason::BelowTarget)
    } else if q.last_pagecache_shrink_target_huge_frames != target {
        (Decision::Eligible, Reason::TargetChanged)
    } else {
        (Decision::Hold, Reason::Stable)
    }
}

pub fn hyperalloc_policy_eval(q: &HyperAllocQuery, target_huge_frames: u64) -> (r: (
    Decision,
    Reason,
))
    ensures
        r == policy_eval(*q, target_huge_frames),
{
    if q.vfio_physical_reclaim_block_reason != 0 {
        return (Decision::Hold, Reason::VfioBlocked);
    }
    if q.vfio_guest_ram_mmap_stale != 0 {
        return (Decision::Hold, Reason::MmapStale);
    }
    if hyperalloc_pagecache_request_outstanding(q) {
        return (Decision::Wait, Reason::Pending);
    }
    if q.last_pagecache_shrink_seq == 0 || q.pagecache_shrink_completed_requests.saturating_add(
        q.pagecache_shrink_failed_requests,
    ) == 0 {
        return (Decision::Eligible, Reason::BelowTarget);
    }
    if q.last_pagecache_shrink_target_huge_frames != target_huge_frames {
        return (Decision::Eligible, Reason::TargetChanged);
    }
    (Decision::Hold, Reason::Stable)
}

pub open spec fn spec_decision_name(d: Decision) -> &'static str {
    match d {
        Decision::Hold => "hold",
        Decision::Wait => "wait",
        Decision::Eligible => "eligible",
    }
}

pub fn decision_name(d: Decision) -> (r: &'static str)
    ensures
        r == spec_decision_name(d),
{
    match d {
        Decision::Hold => "hold",
        Decision::Wait => "wait",
        Decision::Eligible => "eligible",
    }
}

pub open spec fn spec_reason_name(r: Reason) -> &'static str {
    match r {
        Reason::VfioBlocked => "vfio_blocked",
        Reason::MmapStale => "mmap_stale",
        Reason::Pending => "pending",
        Reason::BelowTarget => "below_target",
        Reason::TargetChanged => "target_changed",
        Reason::Stable => "stable",
    }
}

pub fn reason_name(r: Reason) -> (s: &'static str)
    ensures
        s == spec_reason_name(r),
{
    match r {
        Reason::VfioBlocked => "vfio_blocked",
        Reason::MmapStale => "mmap_stale",
        Reason::Pending => "pending",
        Reason::BelowTarget => "below_target",
        Reason::TargetChanged => "target_changed",
        Reason::Stable => "stable",
    }
}

/// What a memory target does to host memory, as the query flags tell it.
#[derive(Clone, Copy, Debug, PartialEq, Eq, Structural)]
pub enum MemoryEffect {
    PhysicalRelease,
    LogicalOnly,
    Unknown,
}

/// Physical release alone is `PhysicalRelease`; persistent host-RAM consumers
/// or a retained HPA alone is `LogicalOnly`; anything else is `Unknown`.
pub open spec fn memory_effect(q: HyperAllocQuery) -> MemoryEffect {
    let physical = q.flags & QUERY_FLAG_PHYSICAL_RELEASE_ALLOWED != 0;
    let logical = q.flags & (QUERY_FLAG_PERSISTENT_HOST_RAM_CONSUMERS | QUERY_FLAG_RETAIN_HPA) != 0;
    if physical && !logical {
        MemoryEffect::PhysicalRelease
    } else if !physical && logical {
        MemoryEffect::LogicalOnly
    } else {
        MemoryEffect::Unknown
    }
}

pub fn hyperalloc_memory_effect(q: &HyperAllocQuery) -> (r: MemoryEffect)
    ensures
        r == memory_effect(*q),
{
    let physical = q.flags & QUERY_FLAG_PHYSICAL_RELEASE_ALLOWED != 0;
    let logical = q.flags & (QUERY_FLAG_PERSISTENT_HOST_RAM_CONSUMERS | QUERY_FLAG_RETAIN_HPA) != 0;
    if physical && !logical {
        MemoryEffect::PhysicalRelease
    } else if !physical && logical {
        MemoryEffect::LogicalOnly
    } else {
        MemoryEffect::Unknown
    }
}

pub open spec fn spec_memory_effect_name(e: MemoryEffect) -> &'static str {
    match e {
        MemoryEffect::PhysicalRelease => "physical_release",
        MemoryEffect::LogicalOnly => "logical_only",
        MemoryEffect::Unknown => "unknown",
    }
}

pub fn memory_effect_name(e: MemoryEffect) -> (r: &'static str)
    ensures
        r == spec_memory_effect_name(e),
{
    match e {
        MemoryEffect::PhysicalRelease => "physical_release",
        MemoryEffect::LogicalOnly => "logical_only",
        MemoryEffect::Unknown => "unknown",
    }
}

pub open spec fn spec_vfio_block_state(reason: u32) -> &'static str {
    if reason == VFIO_RECLAIM_BLOCK_NONE {
        "none"
    } else if reason == VFIO_RECLAIM_BLOCK_STALE_VMA_POLICY {
        "stale_vma_policy"
    } else if reason == VFIO_RECLAIM_BLOCK_GUEST_RAM_MMAP_ACTIVE {
        "guest_ram_mmap_active"
    } else if reason == VFIO_RECLAIM_BLOCK_GUEST_RAM_MMAP_STALE {
        "guest_ram_mmap_stale"
    } else if reason == VFIO_RECLAIM_BLOCK_DYNAMIC_DMA_UNSUPPORTED {
        "dynamic_dma_unsupported"
    } else if reason == VFIO_RECLAIM_BLOCK_DYNAMIC_DMA_DISABLED {
        "dynamic_dma_disabled"
    } else if reason == VFIO_RECLAIM_BLOCK_DMA_ROLLBACK_MISSING {
        "dma_rollback_missing"
    } else {
        "unknown"
    }
}

/// Name of a VFIO physical-reclaim block reason.
pub fn vfio_block_state(reason: u32) -> (r: &'static str)
    ensures
        r == spec_vfio_block_state(reason),
{
    if reason == VFIO_RECLAIM_BLOCK_NONE {
        "none"
    } else if reason == VFIO_RECLAIM_BLOCK_STALE_VMA_POLICY {
        "stale_vma_policy"
    } else if reason == VFIO_RECLAIM_BLOCK_GUEST_RAM_MMAP_ACTIVE {
        "guest_ram_mmap_active"
    } else if reason == VFIO_RECLAIM_BLOCK_GUEST_RAM_MMAP_STALE {
        "guest_ram_mmap_stale"
    } else if reason == VFIO_RECLAIM_BLOCK_DYNAMIC_DMA_UNSUPPORTED {
        "dynamic_dma_unsupported"
    } else if reason == VFIO_RECLAIM_BLOCK_DYNAMIC_DMA_DISABLED {
        "dynamic_dma_disabled"
    } else if reason == VFIO_RECLAIM_BLOCK_DMA_ROLLBACK_MISSING {
        "dma_rollback_missing"
    } else {
        "unknown"
    }
}

pub open spec fn spec_vfio_dma_op_name(op: u32) -> &'static str {
    if op == VFIO_DMA_OP_NONE {
        "none"
    } else if op == VFIO_DMA_OP_MAP {
        "map"
    } else if op == VFIO_DMA_OP_UNMAP {
        "unmap"
    } else {
        "unknown"
    }
}

/// Name of a VFIO DMA operation code.
pub fn vfio_dma_op_name(op: u32) -> (r: &'static str)
    ensures
        r == spec_vfio_dma_op_name(op),
{
    if op == VFIO_DMA_OP_NONE {
        "none"
    } else if op == VFIO_DMA_OP_MAP {
        "map"
    } else if op == VFIO_DMA_OP_UNMAP {
        "unmap"
    } else {
        "unknown"
    }
}

pub open spec fn spec_vfio_dma_status_name(status: u32) -> &'static str {
    if status == VFIO_DMA_STATUS_NONE {
        "none"
    } else if status == VFIO_DMA_STATUS_PENDING {
        "pending"
    } else if status == VFIO_DMA_STATUS_SUCCESS {
        "success"
    } else if status == VFIO_DMA_STATUS_FAILED {
        "failed"
    } else if status == VFIO_DMA_STATUS_UNSUPPORTED {
        "unsupported"
    } else {
        "unknown"
    }
}

/// Name of a VFIO DMA status code.
pub fn vfio_dma_status_name(status: u32) -> (r: &'static str)
    ensures
        r == spec_vfio_dma_status_name(status),
{
    if status == VFIO_DMA_STATUS_NONE {
        "none"
    } else if status == VFIO_DMA_STATUS_PENDING {
        "pending"
    } else if status == VFIO_DMA_STATUS_SUCCESS {
        "success"
    } else if status == VFIO_DMA_STATUS_FAILED {
        "failed"
    } else if status == VFIO_DMA_STATUS_UNSUPPORTED {
        "unsupported"
    } else {
        "unknown"
    }
}

pub open spec fn spec_mmap_zap_status_name(status: u32) -> &'static str {
    if status == MMAP_ZAP_STATUS_NONE {
        "none"
    } else if status == MMAP_ZAP_STATUS_PENDING {
        "pending"
    } else if status == MMAP_ZAP_STATUS_SUCCESS {
        "success"
    } else if status == MMAP_ZAP_STATUS_FAILED {
        "failed"
    } else if status == MMAP_ZAP_STATUS_UNSUPPORTED {
        "unsupported"
    } else {
        "unknown"
    }
}

/// Name of a guest-RAM mmap zap status code.
pub fn mmap_zap_status_name(status: u32) -> (r: &'static str)
    ensures
        r == spec_mmap_zap_status_name(status),
{
    if status == MMAP_ZAP_STATUS_NONE {
        "none"
    } else if status == MMAP_ZAP_STATUS_PENDING {
        "pending"
    } else if status == MMAP_ZAP_STATUS_SUCCESS {
        "success"
    } else if status == MMAP_ZAP_STATUS_FAILED {
        "failed"
    } else if status == MMAP_ZAP_STATUS_UNSUPPORTED {
        "unsupported"
    } else {
        "unknown"
    }
}

pub open spec fn status_fields_part0(q: HyperAllocQuery) -> Seq<Field> {
    seq![
        Field { key: "version", value: FieldValue::Dec(q.version as u64) },
        Field { key: "flags", value: FieldValue::Hex(q.flags as u64) },
        Field { key: "frames", value: FieldValue::Dec(q.frame_count) },
        Field { key: "registered_frames", value: FieldValue::Dec(q.registered_frames) },
        Field { key: "unregistered_frames", value: FieldValue::Dec(unregistered_frames(q)) },
        Field { key: "installed", value: FieldValue::Dec(q.installed_frames) },
        Field { key: "soft", value: FieldValue::Dec(q.soft_reclaimed_frames) },
        Field { key: "hard", value: FieldValue::Dec(q.hard_reclaimed_frames) },
        Field { key: "installing", value: FieldValue::Dec(q.installing_frames) },
        Field { key: "reclaiming", value: FieldValue::Dec(q.reclaiming_frames) },
        Field { key: "logical_reclaims", value: FieldValue::Dec(q.logical_hard_reclaims) },
        Field { key: "logical_returns", value: FieldValue::Dec(q.logical_returns) },
        Field { key: "logical_installs", value: FieldValue::Dec(q.logical_installs) },
        Field { key: "logical_reclaim_attempts", value: FieldValue::Dec(q.logical_hard_reclaim_attempts) },
        Field { key: "logical_reclaim_failures", value: FieldValue::Dec(q.logical_hard_reclaim_failures) },
        Field { key: "logical_install_attempts", value: FieldValue::Dec(q.logical_install_attempts) },
        Field { key: "logical_install_failures", value: FieldValue::Dec(q.logical_install_failures) },
        Field { key: "last_reclaim_us", value: FieldValue::Dec(q.last_logical_reclaim_us) },
        Field { key: "max_reclaim_us", value: FieldValue::Dec(q.max_logical_reclaim_us) },
        Field { key: "last_install_us", value: FieldValue::Dec(q.last_logical_install_us) },
        Field { key: "max_install_us", value: FieldValue::Dec(q.max_logical_install_us) },
        Field { key: "physical_releases", value: FieldValue::Dec(q.physical_releases) },
        Field { key: "physical_allocations", value: FieldValue::Dec(q.physical_allocations) },
        Field { key: "physically_released_frames", value: FieldValue::Dec(q.physically_released_frames) },
    ]
}

pub open spec fn status_fields_part1(q: HyperAllocQuery) -> Seq<Field> {
    seq![
        Field { key: "last_physical_release_hpa", value: FieldValue::Dec(q.last_physical_release_hpa) },
        Field { key: "last_physical_allocation_hpa", value: FieldValue::Dec(q.last_physical_allocation_hpa) },
        Field { key: "physical_release_allowed", value: FieldValue::Dec(spec_query_flag(q, QUERY_FLAG_PHYSICAL_RELEASE_ALLOWED) as u64) },
        Field { key: "persistent_host_ram_consumers", value: FieldValue::Dec(spec_query_flag(q, QUERY_FLAG_PERSISTENT_HOST_RAM_CONSUMERS) as u64) },
        Field { key: "retain_hpa", value: FieldValue::Dec(spec_query_flag(q, QUERY_FLAG_RETAIN_HPA) as u64) },
        Field { key: "pcache_req", value: FieldValue::Dec(q.pagecache_shrink_pending_requests) },
        Field { key: "pcache_done", value: FieldValue::Dec(q.pagecache_shrink_completed_requests) },
        Field { key: "pcache_failed", value: FieldValue::Dec(q.pagecache_shrink_failed_requests) },
        Field { key: "last_seq", value: FieldValue::Dec(q.last_pagecache_shrink_seq) },
        Field { key: "last_target_huge", value: FieldValue::Dec(q.last_pagecache_shrink_target_huge_frames) },
        Field { key: "last_target_pages", value: FieldValue::Dec(q.last_pagecache_shrink_target_pages) },
        Field { key: "last_reclaimed_huge", value: FieldValue::Dec(q.last_pagecache_shrink_reclaimed_huge_frames) },
        Field { key: "last_remaining_file_huge", value: FieldValue::Dec(q.last_pagecache_shrink_remaining_file_huge_frames) },
        Field { key: "last_pcache_status", value: FieldValue::Dec(q.last_pagecache_shrink_status as u64) },
        Field { key: "last_pcache_errno", value: FieldValue::Int(q.last_pagecache_shrink_errno as i64) },
        Field { key: "vfio_dma_pending", value: FieldValue::Dec(q.vfio_dma_pending_requests) },
        Field { key: "vfio_dma_done", value: FieldValue::Dec(q.vfio_dma_completed_requests) },
        Field { key: "vfio_dma_failed", value: FieldValue::Dec(q.vfio_dma_failed_requests) },
        Field { key: "vfio_dma_outstanding", value: FieldValue::Dec(q.vfio_dma_outstanding) },
        Field { key: "last_vfio_dma_seq", value: FieldValue::Dec(q.last_vfio_dma_seq) },
        Field { key: "last_vfio_dma_op", value: FieldValue::Dec(q.last_vfio_dma_op as u64) },
        Field { key: "last_vfio_dma_op_name", value: FieldValue::Text(spec_vfio_dma_op_name(q.last_vfio_dma_op)) },
        Field { key: "last_vfio_dma_status", value: FieldValue::Dec(q.last_vfio_dma_status as u64) },
        Field { key: "last_vfio_dma_status_name", value: FieldValue::Text(spec_vfio_dma_status_name(q.last_vfio_dma_status)) },
    ]
}

pub open spec fn status_fields_part2(q: HyperAllocQuery) -> Seq<Field> {
    seq![
        Field { key: "last_vfio_dma_iova", value: FieldValue::Dec(q.last_vfio_dma_iova) },
        Field { key: "last_vfio_dma_hpa", value: FieldValue::Dec(q.last_vfio_dma_hpa) },
        Field { key: "last_vfio_dma_size", value: FieldValue::Dec(q.last_vfio_dma_size) },
        Field { key: "last_vfio_dma_errno", value: FieldValue::Int(q.last_vfio_dma_errno as i64) },
        Field { key: "reclaim_dma_rollback_attempts", value: FieldValue::Dec(q.reclaim_dma_rollback_attempts) },
        Field { key: "reclaim_dma_rollback_successes", value: FieldValue::Dec(q.reclaim_dma_rollback_successes) },
        Field { key: "reclaim_dma_rollback_failures", value: FieldValue::Dec(q.reclaim_dma_rollback_failures) },
        Field { key: "install_ept_rollback_attempts", value: FieldValue::Dec(q.install_ept_rollback_attempts) },
        Field { key: "install_ept_rollback_successes", value: FieldValue::Dec(q.install_ept_rollback_successes) },
        Field { key: "install_ept_rollback_failures", value: FieldValue::Dec(q.install_ept_rollback_failures) },
        Field { key: "mmap_gen", value: FieldValue::Dec(q.vfio_guest_ram_mmap_generation) },
        Field { key: "mmap_active", value: FieldValue::Dec(q.vfio_guest_ram_mmap_active) },
        Field { key: "mmap_current", value: FieldValue::Dec(q.vfio_guest_ram_mmap_current) },
        Field { key: "mmap_stale", value: FieldValue::Dec(q.vfio_guest_ram_mmap_stale) },
        Field { key: "mmap_seq", value: FieldValue::Dec(q.vfio_guest_ram_mmap_update_seq) },
        Field { key: "mmap_reason", value: FieldValue::Dec(q.vfio_guest_ram_mmap_last_reason as u64) },
        Field { key: "mmap_zap_pending", value: FieldValue::Dec(q.guest_ram_mmap_zap_pending_requests) },
        Field { key: "mmap_zap_done", value: FieldValue::Dec(q.guest_ram_mmap_zap_completed_requests) },
        Field { key: "mmap_zap_failed", value: FieldValue::Dec(q.guest_ram_mmap_zap_failed_requests) },
        Field { key: "mmap_zap_outstanding", value: FieldValue::Dec(q.guest_ram_mmap_zap_outstanding) },
        Field { key: "last_mmap_zap_seq", value: FieldValue::Dec(q.last_guest_ram_mmap_zap_seq) },
        Field { key: "last_mmap_zap_status", value: FieldValue::Dec(q.last_guest_ram_mmap_zap_status as u64) },
        Field { key: "last_mmap_zap_status_name", value: FieldValue::Text(spec_mmap_zap_status_name(q.last_guest_ram_mmap_zap_status)) },
        Field { key: "last_mmap_zap_gpa", value: FieldValue::Dec(q.last_guest_ram_mmap_zap_gpa) },
    ]
}

pub open spec fn status_fields_part3(q: HyperAllocQuery) -> Seq<Field> {
    seq![
        Field { key: "last_mmap_zap_len", value: FieldValue::Dec(q.last_guest_ram_mmap_zap_len) },
        Field { key: "last_mmap_zap_zapped_vmas", value: FieldValue::Dec(q.last_guest_ram_mmap_zap_zapped_vmas) },
        Field { key: "last_mmap_zap_zapped_bytes", value: FieldValue::Dec(q.last_guest_ram_mmap_zap_zapped_bytes) },
        Field { key: "last_mmap_zap_errno", value: FieldValue::Int(q.last_guest_ram_mmap_zap_errno as i64) },
        Field { key: "vfio_block_reason", value: FieldValue::Dec(q.vfio_physical_reclaim_block_reason as u64) },
        Field { key: "vfio_block_state", value: FieldValue::Text(spec_vfio_block_state(q.vfio_physical_reclaim_block_reason)) },
        Field { key: "eqgate_ha_available", value: FieldValue::Dec(spec_query_flag(q, QUERY_FLAG_EQGATE_BATCH_AVAILABLE) as u64) },
        Field { key: "eqgate_ha_pcpu_count", value: FieldValue::Dec(q.eqgate_hyperalloc_pcpu_count) },
        Field { key: "eqgate_ha_capacity", value: FieldValue::Dec(q.eqgate_hyperalloc_queue_capacity) },
        Field { key: "eqgate_ha_pending", value: FieldValue::Dec(q.eqgate_hyperalloc_pending) },
        Field { key: "eqgate_ha_submitted", value: FieldValue::Dec(q.eqgate_hyperalloc_submitted) },
        Field { key: "eqgate_ha_drained", value: FieldValue::Dec(q.eqgate_hyperalloc_drained) },
        Field { key: "eqgate_ha_dropped", value: FieldValue::Dec(q.eqgate_hyperalloc_dropped) },
        Field { key: "eqgate_ha_last_seq", value: FieldValue::Dec(q.eqgate_hyperalloc_last_sequence) },
        Field { key: "eqgate_root_drain_execute", value: FieldValue::Dec(spec_query_flag(q, QUERY_FLAG_EQGATE_ROOT_DRAIN_EXECUTE) as u64) },
        Field { key: "eqgate_guest_hcall_enqueue", value: FieldValue::Dec(spec_query_flag(q, QUERY_FLAG_EQGATE_GUEST_HCALL_ENQUEUE) as u64) },
        Field { key: "eqgate_direct_ept_iommu_update", value: FieldValue::Dec(spec_query_flag(q, QUERY_FLAG_EQGATE_DIRECT_EPT_IOMMU_UPDATE) as u64) },
        Field { key: "vfio_present", value: FieldValue::Dec(spec_query_flag(q, QUERY_FLAG_VFIO_PRESENT) as u64) },
        Field { key: "vfio_dynamic_supported", value: FieldValue::Dec(spec_query_flag(q, QUERY_FLAG_VFIO_DMA_DYNAMIC_SUPPORTED) as u64) },
        Field { key: "vfio_dynamic_enabled", value: FieldValue::Dec(spec_query_flag(q, QUERY_FLAG_VFIO_DMA_DYNAMIC_ENABLED) as u64) },
        Field { key: "vfio_dma_blocked_stale_vma", value: FieldValue::Dec(spec_query_flag(q, QUERY_FLAG_VFIO_DMA_BLOCKED_STALE_VMA) as u64) },
        Field { key: "vfio_physical_reclaim_blocked", value: FieldValue::Dec(spec_query_flag(q, QUERY_FLAG_VFIO_PHYSICAL_RECLAIM_BLOCKED) as u64) },
    ]
}

/// The fields of the HyperAlloc status line, in order.
pub open spec fn status_fields(q: HyperAllocQuery) -> Seq<Field> {
    status_fields_part0(q) + status_fields_part1(q) + status_fields_part2(q) + status_fields_part3(q)
}

fn push_status_fields_part0(v: &mut Vec<Field>, q: &HyperAllocQuery)
    ensures
        final(v)@ == old(v)@ + status_fields_part0(*q),
{
    v.push(Field { key: "version", value: FieldValue::Dec(q.version as u64) });
    v.push(Field { key: "flags", value: FieldValue::Hex(q.flags as u64) });
    v.push(Field { key: "frames", value: FieldValue::Dec(q.frame_count) });
    v.push(Field { key: "registered_frames", value: FieldValue::Dec(q.registered_frames) });
    v.push(Field { key: "unregistered_frames", value: FieldValue::Dec(q.frame_count.saturating_sub(q.registered_frames)) });
    v.push(Field { key: "installed", value: FieldValue::Dec(q.installed_frames) });
    v.push(Field { key: "soft", value: FieldValue::Dec(q.soft_reclaimed_frames) });
    v.push(Field { key: "hard", value: FieldValue::Dec(q.hard_reclaimed_frames) });
    v.push(Field { key: "installing", value: FieldValue::Dec(q.installing_frames) });
    v.push(Field { key: "reclaiming", value: FieldValue::Dec(q.reclaiming_frames) });
    v.push(Field { key: "logical_reclaims", value: FieldValue::Dec(q.logical_hard_reclaims) });
    v.push(Field { key: "logical_returns", value: FieldValue::Dec(q.logical_returns) });
    v.push(Field { key: "logical_installs", value: FieldValue::Dec(q.logical_installs) });
    v.push(Field { key: "logical_reclaim_attempts", value: FieldValue::Dec(q.logical_hard_reclaim_attempts) });
    v.push(Field { key: "logical_reclaim_failures", value: FieldValue::Dec(q.logical_hard_reclaim_failures) });
    v.push(Field { key: "logical_install_attempts", value: FieldValue::Dec(q.logical_install_attempts) });
    v.push(Field { key: "logical_install_failures", value: FieldValue::Dec(q.logical_install_failures) });
    v.push(Field { key: "last_reclaim_us", value: FieldValue::Dec(q.last_logical_reclaim_us) });
    v.push(Field { key: "max_reclaim_us", value: FieldValue::Dec(q.max_logical_reclaim_us) });
    v.push(Field { key: "last_install_us", value: FieldValue::Dec(q.last_logical_install_us) });
    v.push(Field { key: "max_install_us", value: FieldValue::Dec(q.max_logical_install_us) });
    v.push(Field { key: "physical_releases", value: FieldValue::Dec(q.physical_releases) });
    v.push(Field { key: "physical_allocations", value: FieldValue::Dec(q.physical_allocations) });
    v.push(Field { key: "physically_released_frames", value: FieldValue::Dec(q.physically_released_frames) });
    assert(final(v)@ =~= old(v)@ + status_fields_part0(*q));
}

fn push_status_fields_part1(v: &mut Vec<Field>, q: &HyperAllocQuery)
    ensures
        final(v)@ == old(v)@ + status_fields_part1(*q),
{
    v.push(Field { key: "last_physical_release_hpa", value: FieldValue::Dec(q.last_physical_release_hpa) });
    v.push(Field { key: "last_physical_allocation_hpa", value: FieldValue::Dec(q.last_physical_allocation_hpa) });
    v.push(Field { key: "physical_release_allowed", value: FieldValue::Dec(hyperalloc_query_flag(q, QUERY_FLAG_PHYSICAL_RELEASE_ALLOWED) as u64) });
    v.push(Field { key: "persistent_host_ram_consumers", value: FieldValue::Dec(hyperalloc_query_flag(q, QUERY_FLAG_PERSISTENT_HOST_RAM_CONSUMERS) as u64) });
    v.push(Field { key: "retain_hpa", value: FieldValue::Dec(hyperalloc_query_flag(q, QUERY_FLAG_RETAIN_HPA) as u64) });
    v.push(Field { key: "pcache_req", value: FieldValue::Dec(q.pagecache_shrink_pending_requests) });
    v.push(Field { key: "pcache_done", value: FieldValue::Dec(q.pagecache_shrink_completed_requests) });
    v.push(Field { key: "pcache_failed", value: FieldValue::Dec(q.pagecache_shrink_failed_requests) });
    v.push(Field { key: "last_seq", value: FieldValue::Dec(q.last_pagecache_shrink_seq) });
    v.push(Field { key: "last_target_huge", value: FieldValue::Dec(q.last_pagecache_shrink_target_huge_frames) });
    v.push(Field { key: "last_target_pages", value: FieldValue::Dec(q.last_pagecache_shrink_target_pages) });
    v.push(Field { key: "last_reclaimed_huge", value: FieldValue::Dec(q.last_pagecache_shrink_reclaimed_huge_frames) });
    v.push(Field { key: "last_remaining_file_huge", value: FieldValue::Dec(q.last_pagecache_shrink_remaining_file_huge_frames) });
    v.push(Field { key: "last_pcache_status", value: FieldValue::Dec(q.last_pagecache_shrink_status as u64) });
    v.push(Field { key: "last_pcache_errno", value: FieldValue::Int(q.last_pagecache_shrink_errno as i64) });
    v.push(Field { key: "vfio_dma_pending", value: FieldValue::Dec(q.vfio_dma_pending_requests) });
    v.push(Field { key: "vfio_dma_done", value: FieldValue::Dec(q.vfio_dma_completed_requests) });
    v.push(Field { key: "vfio_dma_failed", value: FieldValue::Dec(q.vfio_dma_failed_requests) });
    v.push(Field { key: "vfio_dma_outstanding", value: FieldValue::Dec(q.vfio_dma_outstanding) });
    v.push(Field { key: "last_vfio_dma_seq", value: FieldValue::Dec(q.last_vfio_dma_seq) });
    v.push(Field { key: "last_vfio_dma_op", value: FieldValue::Dec(q.last_vfio_dma_op as u64) });
    v.push(Field { key: "last_vfio_dma_op_name", value: FieldValue::Text(vfio_dma_op_name(q.last_vfio_dma_op)) });
    v.push(Field { key: "last_vfio_dma_status", value: FieldValue::Dec(q.last_vfio_dma_status as u64) });
    v.push(Field { key: "last_vfio_dma_status_name", value: FieldValue::Text(vfio_dma_status_name(q.last_vfio_dma_status)) });
    assert(final(v)@ =~= old(v)@ + status_fields_part1(*q));
}

fn push_status_fields_part2(v: &mut Vec<Field>, q: &HyperAllocQuery)
    ensures
        final(v)@ == old(v)@ + status_fields_part2(*q),
{
    v.push(Field { key: "last_vfio_dma_iova", value: FieldValue::Dec(q.last_vfio_dma_iova) });
    v.push(Field { key: "last_vfio_dma_hpa", value: FieldValue::Dec(q.last_vfio_dma_hpa) });
    v.push(Field { key: "last_vfio_dma_size", value: FieldValue::Dec(q.last_vfio_dma_size) });
    v.push(Field { key: "last_vfio_dma_errno", value: FieldValue::Int(q.last_vfio_dma_errno as i64) });
    v.push(Field { key: "reclaim_dma_rollback_attempts", value: FieldValue::Dec(q.reclaim_dma_rollback_attempts) });
    v.push(Field { key: "reclaim_dma_rollback_successes", value: FieldValue::Dec(q.reclaim_dma_rollback_successes) });
    v.push(Field { key: "reclaim_dma_rollback_failures", value: FieldValue::Dec(q.reclaim_dma_rollback_failures) });
    v.push(Field { key: "install_ept_rollback_attempts", value: FieldValue::Dec(q.install_ept_rollback_attempts) });
    v.push(Field { key: "install_ept_rollback_successes", value: FieldValue::Dec(q.install_ept_rollback_successes) });
    v.push(Field { key: "install_ept_rollback_failures", value: FieldValue::Dec(q.install_ept_rollback_failures) });
    v.push(Field { key: "mmap_gen", value: FieldValue::Dec(q.vfio_guest_ram_mmap_generation) });
    v.push(Field { key: "mmap_active", value: FieldValue::Dec(q.vfio_guest_ram_mmap_active) });
    v.push(Field { key: "mmap_current", value: FieldValue::Dec(q.vfio_guest_ram_mmap_current) });
    v.push(Field { key: "mmap_stale", value: FieldValue::Dec(q.vfio_guest_ram_mmap_stale) });
    v.push(Field { key: "mmap_seq", value: FieldValue::Dec(q.vfio_guest_ram_mmap_update_seq) });
    v.push(Field { key: "mmap_reason", value: FieldValue::Dec(q.vfio_guest_ram_mmap_last_reason as u64) });
    v.push(Field { key: "mmap_zap_pending", value: FieldValue::Dec(q.guest_ram_mmap_zap_pending_requests) });
    v.push(Field { key: "mmap_zap_done", value: FieldValue::Dec(q.guest_ram_mmap_zap_completed_requests) });
    v.push(Field { key: "mmap_zap_failed", value: FieldValue::Dec(q.guest_ram_mmap_zap_failed_requests) });
    v.push(Field { key: "mmap_zap_outstanding", value: FieldValue::Dec(q.guest_ram_mmap_zap_outstanding) });
    v.push(Field { key: "last_mmap_zap_seq", value: FieldValue::Dec(q.last_guest_ram_mmap_zap_seq) });
    v.push(Field { key: "last_mmap_zap_status", value: FieldValue::Dec(q.last_guest_ram_mmap_zap_status as u64) });
    v.push(Field { key: "last_mmap_zap_status_name", value: FieldValue::Text(mmap_zap_status_name(q.last_guest_ram_mmap_zap_status)) });
    v.push(Field { key: "last_mmap_zap_gpa", value: FieldValue::Dec(q.last_guest_ram_mmap_zap_gpa) });
    assert(final(v)@ =~= old(v)@ + status_fields_part2(*q));
}

fn push_status_fields_part3(v: &mut Vec<Field>, q: &HyperAllocQuery)
    ensures
        final(v)@ == old(v)@ + status_fields_part3(*q),
{
    v.push(Field { key: "last_mmap_zap_len", value: FieldValue::Dec(q.last_guest_ram_mmap_zap_len) });
    v.push(Field { key: "last_mmap_zap_zapped_vmas", value: FieldValue::Dec(q.last_guest_ram_mmap_zap_zapped_vmas) });
    v.push(Field { key: "last_mmap_zap_zapped_bytes", value: FieldValue::Dec(q.last_guest_ram_mmap_zap_zapped_bytes) });
    v.push(Field { key: "last_mmap_zap_errno", value: FieldValue::Int(q.last_guest_ram_mmap_zap_errno as i64) });
    v.push(Field { key: "vfio_block_reason", value: FieldValue::Dec(q.vfio_physical_reclaim_block_reason as u64) });
    v.push(Field { key: "vfio_block_state", value: FieldValue::Text(vfio_block_state(q.vfio_physical_reclaim_block_reason)) });
    v.push(Field { key: "eqgate_ha_available", value: FieldValue::Dec(hyperalloc_query_flag(q, QUERY_FLAG_EQGATE_BATCH_AVAILABLE) as u64) });
    v.push(Field { key: "eqgate_ha_pcpu_count", value: FieldValue::Dec(q.eqgate_hyperalloc_pcpu_count) });
    v.push(Field { key: "eqgate_ha_capacity", value: FieldValue::Dec(q.eqgate_hyperalloc_queue_capacity) });
    v.push(Field { key: "eqgate_ha_pending", value: FieldValue::Dec(q.eqgate_hyperalloc_pending) });
    v.push(Field { key: "eqgate_ha_submitted", value: FieldValue::Dec(q.eqgate_hyperalloc_submitted) });
    v.push(Field { key: "eqgate_ha_drained", value: FieldValue::Dec(q.eqgate_hyperalloc_drained) });
    v.push(Field { key: "eqgate_ha_dropped", value: FieldValue::Dec(q.eqgate_hyperalloc_dropped) });
    v.push(Field { key: "eqgate_ha_last_seq", value: FieldValue::Dec(q.eqgate_hyperalloc_last_sequence) });
    v.push(Field { key: "eqgate_root_drain_execute", value: FieldValue::Dec(hyperalloc_query_flag(q, QUERY_FLAG_EQGATE_ROOT_DRAIN_EXECUTE) as u64) });
    v.push(Field { key: "eqgate_guest_hcall_enqueue", value: FieldValue::Dec(hyperalloc_query_flag(q, QUERY_FLAG_EQGATE_GUEST_HCALL_ENQUEUE) as u64) });
    v.push(Field { key: "eqgate_direct_ept_iommu_update", value: FieldValue::Dec(hyperalloc_query_flag(q, QUERY_FLAG_EQGATE_DIRECT_EPT_IOMMU_UPDATE) as u64) });
    v.push(Field { key: "vfio_present", value: FieldValue::Dec(hyperalloc_query_flag(q, QUERY_FLAG_VFIO_PRESENT) as u64) });
    v.push(Field { key: "vfio_dynamic_supported", value: FieldValue::Dec(hyperalloc_query_flag(q, QUERY_FLAG_VFIO_DMA_DYNAMIC_SUPPORTED) as u64) });
    v.push(Field { key: "vfio_dynamic_enabled", value: FieldValue::Dec(hyperalloc_query_flag(q, QUERY_FLAG_VFIO_DMA_DYNAMIC_ENABLED) as u64) });
    v.push(Field { key: "vfio_dma_blocked_stale_vma", value: FieldValue::Dec(hyperalloc_query_flag(q, QUERY_FLAG_VFIO_DMA_BLOCKED_STALE_VMA) as u64) });
    v.push(Field { key: "vfio_physical_reclaim_blocked", value: FieldValue::Dec(hyperalloc_query_flag(q, QUERY_FLAG_VFIO_PHYSICAL_RECLAIM_BLOCKED) as u64) });
    assert(final(v)@ =~= old(v)@ + status_fields_part3(*q));
}

fn status_fields_vec(q: &HyperAllocQuery) -> (v: Vec<Field>)
    ensures
        v@ == status_fields(*q),
{
    let mut v: Vec<Field> = Vec::new();
    push_status_fields_part0(&mut v, q);
    push_status_fields_part1(&mut v, q);
    push_status_fields_part2(&mut v, q);
    push_status_fields_part3(&mut v, q);
    assert(v@ =~= status_fields(*q));
    v
}

pub open spec fn policy_eval_fields_part0(q: HyperAllocQuery, target: u64) -> Seq<Field> {
    seq![
        Field { key: "decision", value: FieldValue::Text(spec_decision_name(policy_eval(q, target).0)) },
        Field { key: "reason", value: FieldValue::Text(spec_reason_name(policy_eval(q, target).1)) },
        Field { key: "target_huge_frames", value: FieldValue::Dec(target) },
        Field { key: "memory_effect", value: FieldValue::Text(spec_memory_effect_name(memory_effect(q))) },
        Field { key: "last_seq", value: FieldValue::Dec(q.last_pagecache_shrink_seq) },
        Field { key: "pcache_req", value: FieldValue::Dec(q.pagecache_shrink_pending_requests) },
        Field { key: "pcache_done", value: FieldValue::Dec(q.pagecache_shrink_completed_requests) },
        Field { key: "pcache_failed", value: FieldValue::Dec(q.pagecache_shrink_failed_requests) },
        Field { key: "registered_frames", value: FieldValue::Dec(q.registered_frames) },
        Field { key: "unregistered_frames", value: FieldValue::Dec(unregistered_frames(q)) },
        Field { key: "mmap_active", value: FieldValue::Dec(q.vfio_guest_ram_mmap_active) },
        Field { key: "mmap_current", value: FieldValue::Dec(q.vfio_guest_ram_mmap_current) },
        Field { key: "mmap_stale", value: FieldValue::Dec(q.vfio_guest_ram_mmap_stale) },
        Field { key: "vfio_block_reason", value: FieldValue::Dec(q.vfio_physical_reclaim_block_reason as u64) },
    ]
}

/// The fields of a policy evaluation line, in order.
pub open spec fn policy_eval_fields(q: HyperAllocQuery, target: u64) -> Seq<Field> {
    policy_eval_fields_part0(q, target)
}

fn push_policy_eval_fields_part0(v: &mut Vec<Field>, q: &HyperAllocQuery, target: u64, decision: Decision, reason: Reason)
    requires
        (decision, reason) == policy_eval(*q, target),
    ensures
        final(v)@ == old(v)@ + policy_eval_fields_part0(*q, target),
{
    v.push(Field { key: "decision", value: FieldValue::Text(decision_name(decision)) });
    v.push(Field { key: "reason", value: FieldValue::Text(reason_name(reason)) });
    v.push(Field { key: "target_huge_frames", value: FieldValue::Dec(target) });
    v.push(Field { key: "memory_effect", value: FieldValue::Text(memory_effect_name(hyperalloc_memory_effect(q))) });
    v.push(Field { key: "last_seq", value: FieldValue::Dec(q.last_pagecache_shrink_seq) });
    v.push(Field { key: "pcache_req", value: FieldValue::Dec(q.pagecache_shrink_pending_requests) });
    v.push(Field { key: "pcache_done", value: FieldValue::Dec(q.pagecache_shrink_completed_requests) });
    v.push(Field { key: "pcache_failed", value: FieldValue::Dec(q.pagecache_shrink_failed_requests) });
    v.push(Field { key: "registered_frames", value: FieldValue::Dec(q.registered_frames) });
    v.push(Field { key: "unregistered_frames", value: FieldValue::Dec(q.frame_count.saturating_sub(q.registered_frames)) });
    v.push(Field { key: "mmap_active", value: FieldValue::Dec(q.vfio_guest_ram_mmap_active) });
    v.push(Field { key: "mmap_current", value: FieldValue::Dec(q.vfio_guest_ram_mmap_current) });
    v.push(Field { key: "mmap_stale", value: FieldValue::Dec(q.vfio_guest_ram_mmap_stale) });
    v.push(Field { key: "vfio_block_reason", value: FieldValue::Dec(q.vfio_physical_reclaim_block_reason as u64) });
    assert(final(v)@ =~= old(v)@ + policy_eval_fields_part0(*q, target));
}

fn policy_eval_fields_vec(q: &HyperAllocQuery, target: u64, decision: Decision, reason: Reason) -> (v: Vec<Field>)
    requires
        (decision, reason) == policy_eval(*q, target),
    ensures
        v@ == policy_eval_fields(*q, target),
{
    let mut v: Vec<Field> = Vec::new();
    push_policy_eval_fields_part0(&mut v, q, target, decision, reason);
    assert(v@ =~= policy_eval_fields(*q, target));
    v
}


/// The HyperAlloc status line of a query.
pub fn format_hyperalloc_status(q: &HyperAllocQuery) -> (s: String)
    ensures
        s@ == "hyperalloc"@ + fields_text(status_fields(*q)),
{
    let fields = status_fields_vec(q);
    render("hyperalloc", &fields)
}

/// The policy evaluation line of a query against a target.
pub fn format_hyperalloc_policy_eval(q: &HyperAllocQuery, target_huge_frames: u64) -> (s: String)
    ensures
        s@ == "policy_eval"@ + fields_text(policy_eval_fields(*q, target_huge_frames)),
{
    let (decision, reason) = hyperalloc_policy_eval(q, target_huge_frames);
    let fields = policy_eval_fields_vec(q, target_huge_frames, decision, reason);
    render("policy_eval", &fields)
}

} // verus!
