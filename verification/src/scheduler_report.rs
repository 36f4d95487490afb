//! Report lines of the scheduler: snapshots, ticks, and the answers to the
//! control commands that change or show its settings.
use vstd::prelude::*;
use crate::hyperalloc::{
    HyperAllocQuery, Decision, Reason, policy_eval, hyperalloc_policy_eval, unregistered_frames,
    spec_query_flag, hyperalloc_query_flag, memory_effect, hyperalloc_memory_effect,
    spec_memory_effect_name, memory_effect_name, spec_decision_name, decision_name,
    spec_reason_name, reason_name, spec_vfio_dma_op_name, vfio_dma_op_name,
    spec_vfio_dma_status_name, vfio_dma_status_name, spec_mmap_zap_status_name,
    mmap_zap_status_name, spec_vfio_block_state, vfio_block_state,
    QUERY_FLAG_PHYSICAL_RELEASE_ALLOWED, QUERY_FLAG_PERSISTENT_HOST_RAM_CONSUMERS,
    QUERY_FLAG_EQGATE_BATCH_AVAILABLE, QUERY_FLAG_EQGATE_ROOT_DRAIN_EXECUTE,
    QUERY_FLAG_EQGATE_GUEST_HCALL_ENQUEUE, QUERY_FLAG_EQGATE_DIRECT_EPT_IOMMU_UPDATE,
};
use crate::report::{Field, FieldValue, fields_text, render};
use crate::scheduler::{
    HyperAllocRuntimeSnapshot, MemoryAction, CpuAction, IoAction, scheduler_actions,
    hyperalloc_scheduler_actions, spec_memory_action_name, memory_action_name,
    spec_cpu_action_name, cpu_action_name, spec_io_action_name, io_action_name, io_backend,
    hyperalloc_scheduler_io_backend, io_effect, hyperalloc_scheduler_io_effect, eqgate_action,
    hyperalloc_scheduler_eqgate_action, spec_eqgate_action_name, eqgate_action_name,
    spec_outcome_name, outcome_name, HyperAllocSchedulerAdaptResult,
    HyperAllocSchedulerAutoApplyResult, HyperAllocSchedulerCpuAutoApplyResult,
    HyperAllocSchedulerIoApplyResult, HyperAllocSchedulerEqGateAutoDrainResult,
};

verus! {

pub open spec fn scheduler_snapshot_fields_part0(instance_id: u64, s: HyperAllocRuntimeSnapshot, q: HyperAllocQuery, m: MemoryAction, c: CpuAction, io: IoAction, decision: Decision, reason: Reason) -> Seq<Field> {
    seq![
        Field { key: "instance", value: FieldValue::Dec(instance_id) },
        Field { key: "memory_target_huge_frames", value: FieldValue::Dec(s.memory_target_huge_frames) },
        Field { key: "policy_enabled", value: FieldValue::Dec(s.policy_enabled as u64) },
        Field { key: "policy_target_huge_frames", value: FieldValue::Dec(s.policy_target_huge_frames) },
        Field { key: "policy_interval_ms", value: FieldValue::Dec(s.policy_interval_ms) },
        Field { key: "policy_elapsed_ms", value: FieldValue::Dec(s.policy_elapsed_ms) },
        Field { key: "policy_last_issued_seq", value: FieldValue::Dec(s.policy_last_issued_seq) },
        Field { key: "policy_last_completed_seq", value: FieldValue::Dec(s.policy_last_completed_seq) },
        Field { key: "metrics_enabled", value: FieldValue::Dec(s.metrics_enabled as u64) },
        Field { key: "metrics_interval_ms", value: FieldValue::Dec(s.metrics_interval_ms) },
        Field { key: "metrics_elapsed_ms", value: FieldValue::Dec(s.metrics_elapsed_ms) },
        Field { key: "evaluator_enabled", value: FieldValue::Dec(s.evaluator_enabled as u64) },
        Field { key: "evaluator_interval_ms", value: FieldValue::Dec(s.evaluator_interval_ms) },
        Field { key: "evaluator_elapsed_ms", value: FieldValue::Dec(s.evaluator_elapsed_ms) },
        Field { key: "evaluator_target_huge_frames", value: FieldValue::Dec(s.evaluator_target_huge_frames) },
        Field { key: "eval_target_huge_frames", value: FieldValue::Dec(s.eval_target_huge_frames) },
        Field { key: "scheduler_enabled", value: FieldValue::Dec(s.scheduler_enabled as u64) },
        Field { key: "scheduler_interval_ms", value: FieldValue::Dec(s.scheduler_interval_ms) },
        Field { key: "scheduler_elapsed_ms", value: FieldValue::Dec(s.scheduler_elapsed_ms) },
        Field { key: "scheduler_target_huge_frames", value: FieldValue::Dec(s.scheduler_target_huge_frames) },
        Field { key: "scheduler_desired_vcpus", value: FieldValue::Dec(s.scheduler_desired_vcpus as u64) },
        Field { key: "scheduler_vfio_queue_goal", value: FieldValue::Dec(s.scheduler_vfio_queue_goal as u64) },
        Field { key: "scheduler_block_io_weight", value: FieldValue::Dec(s.scheduler_block_io_weight as u64) },
        Field { key: "scheduler_auto_apply", value: FieldValue::Dec(s.scheduler_auto_apply as u64) },
    ]
}

pub open spec fn scheduler_snapshot_fields_part1(instance_id: u64, s: HyperAllocRuntimeSnapshot, q: HyperAllocQuery, m: MemoryAction, c: CpuAction, io: IoAction, decision: Decision, reason: Reason) -> Seq<Field> {
    seq![
        Field { key: "scheduler_memory_auto_apply", value: FieldValue::Dec(s.scheduler_memory_auto_apply as u64) },
        Field { key: "scheduler_cpu_auto_apply", value: FieldValue::Dec(s.scheduler_cpu_auto_apply as u64) },
        Field { key: "scheduler_eqgate_auto_drain", value: FieldValue::Dec(s.scheduler_eqgate_auto_drain as u64) },
        Field { key: "scheduler_adaptive", value: FieldValue::Dec(s.scheduler_adaptive as u64) },
        Field { key: "scheduler_adaptive_vfio_queue_cap", value: FieldValue::Dec(s.scheduler_adaptive_vfio_queue_cap as u64) },
        Field { key: "memory_action", value: FieldValue::Text(spec_memory_action_name(m)) },
        Field { key: "memory_effect", value: FieldValue::Text(spec_memory_effect_name(memory_effect(q))) },
        Field { key: "cpu_action", value: FieldValue::Text(spec_cpu_action_name(c)) },
        Field { key: "io_action", value: FieldValue::Text(spec_io_action_name(io)) },
        Field { key: "decision", value: FieldValue::Text(spec_decision_name(decision)) },
        Field { key: "reason", value: FieldValue::Text(spec_reason_name(reason)) },
        Field { key: "last_seq", value: FieldValue::Dec(q.last_pagecache_shrink_seq) },
        Field { key: "pcache_req", value: FieldValue::Dec(q.pagecache_shrink_pending_requests) },
        Field { key: "pcache_done", value: FieldValue::Dec(q.pagecache_shrink_completed_requests) },
        Field { key: "pcache_failed", value: FieldValue::Dec(q.pagecache_shrink_failed_requests) },
        Field { key: "registered_frames", value: FieldValue::Dec(q.registered_frames) },
        Field { key: "unregistered_frames", value: FieldValue::Dec(unregistered_frames(q)) },
        Field { key: "installed", value: FieldValue::Dec(q.installed_frames) },
        Field { key: "soft", value: FieldValue::Dec(q.soft_reclaimed_frames) },
        Field { key: "hard", value: FieldValue::Dec(q.hard_reclaimed_frames) },
        Field { key: "reclaiming", value: FieldValue::Dec(q.reclaiming_frames) },
        Field { key: "physical_releases", value: FieldValue::Dec(q.physical_releases) },
        Field { key: "physical_allocations", value: FieldValue::Dec(q.physical_allocations) },
        Field { key: "physically_released_frames", value: FieldValue::Dec(q.physically_released_frames) },
    ]
}

pub open spec fn scheduler_snapshot_fields_part2(instance_id: u64, s: HyperAllocRuntimeSnapshot, q: HyperAllocQuery, m: MemoryAction, c: CpuAction, io: IoAction, decision: Decision, reason: Reason) -> Seq<Field> {
    seq![
        Field { key: "last_physical_release_hpa", value: FieldValue::Dec(q.last_physical_release_hpa) },
        Field { key: "last_physical_allocation_hpa", value: FieldValue::Dec(q.last_physical_allocation_hpa) },
        Field { key: "last_target_huge", value: FieldValue::Dec(q.last_pagecache_shrink_target_huge_frames) },
        Field { key: "last_target_pages", value: FieldValue::Dec(q.last_pagecache_shrink_target_pages) },
        Field { key: "last_reclaimed_huge", value: FieldValue::Dec(q.last_pagecache_shrink_reclaimed_huge_frames) },
        Field { key: "last_remaining_file_huge", value: FieldValue::Dec(q.last_pagecache_shrink_remaining_file_huge_frames) },
        Field { key: "last_pcache_status", value: FieldValue::Dec(q.last_pagecache_shrink_status as u64) },
        Field { key: "last_pcache_errno", value: FieldValue::Int(q.last_pagecache_shrink_errno as i64) },
        Field { key: "vfio_dma_pending", value: FieldValue::Dec(q.vfio_dma_pending_requests) },
        Field { key: "vfio_dma_done", value: FieldValue::Dec(q.vfio_dma_completed_requests) },
        Field { key: "vfio_dma_failed", value: FieldValue::Dec(q.vfio_dma_failed_requests) },
        Field { key: "vfio_dma_outstanding", value: FieldValue::Dec(q.vfio_dma_outstanding) },
        Field { key: "last_vfio_dma_seq", value: FieldValue::Dec(q.last_vfio_dma_seq) },
        Field { key: "last_vfio_dma_op", value: FieldValue::Dec(q.last_vfio_dma_op as u64) },
        Field { key: "last_vfio_dma_op_name", value: FieldValue::Text(spec_vfio_dma_op_name(q.last_vfio_dma_op)) },
        Field { key: "last_vfio_dma_status", value: FieldValue::Dec(q.last_vfio_dma_status as u64) },
        Field { key: "last_vfio_dma_status_name", value: FieldValue::Text(spec_vfio_dma_status_name(q.last_vfio_dma_status)) },
        Field { key: "last_vfio_dma_iova", value: FieldValue::Dec(q.last_vfio_dma_iova) },
        Field { key: "last_vfio_dma_hpa", value: FieldValue::Dec(q.last_vfio_dma_hpa) },
        Field { key: "last_vfio_dma_size", value: FieldValue::Dec(q.last_vfio_dma_size) },
        Field { key: "last_vfio_dma_errno", value: FieldValue::Int(q.last_vfio_dma_errno as i64) },
        Field { key: "reclaim_dma_rollback_attempts", value: FieldValue::Dec(q.reclaim_dma_rollback_attempts) },
        Field { key: "reclaim_dma_rollback_successes", value: FieldValue::Dec(q.reclaim_dma_rollback_successes) },
        Field { key: "reclaim_dma_rollback_failures", value: FieldValue::Dec(q.reclaim_dma_rollback_failures) },
    ]
}

pub open spec fn scheduler_snapshot_fields_part3(instance_id: u64, s: HyperAllocRuntimeSnapshot, q: HyperAllocQuery, m: MemoryAction, c: CpuAction, io: IoAction, decision: Decision, reason: Reason) -> Seq<Field> {
    seq![
        Field { key: "install_ept_rollback_attempts", value: FieldValue::Dec(q.install_ept_rollback_attempts) },
        Field { key: "install_ept_rollback_successes", value: FieldValue::Dec(q.install_ept_rollback_successes) },
        Field { key: "install_ept_rollback_failures", value: FieldValue::Dec(q.install_ept_rollback_failures) },
        Field { key: "mmap_gen", value: FieldValue::Dec(q.vfio_guest_ram_mmap_generation) },
        Field { key: "mmap_active", value: FieldValue::Dec(q.vfio_guest_ram_mmap_active) },
        Field { key: "mmap_current", value: FieldValue::Dec(q.vfio_guest_ram_mmap_current) },
        Field { key: "mmap_stale", value: FieldValue::Dec(q.vfio_guest_ram_mmap_stale) },
        Field { key: "mmap_seq", value: FieldValue::Dec(q.vfio_guest_ram_mmap_update_seq) },
        Field { key: "mmap_reason", value: FieldValue::Dec(q.vfio_guest_ram_mmap_last_reason as u64) },
        Field { key: "mmap_zap_pending", value: FieldValue::Dec(q.guest_ram_mmap_zap_pending_requests) },
        Field { key: "mmap_zap_done", value: FieldValue::Dec(q.guest_ram_mmap_zap_completed_requests) },
        Field { key: "mmap_zap_failed", value: FieldValue::Dec(q.guest_ram_mmap_zap_failed_requests) },
        Field { key: "mmap_zap_outstanding", value: FieldValue::Dec(q.guest_ram_mmap_zap_outstanding) },
        Field { key: "last_mmap_zap_seq", value: FieldValue::Dec(q.last_guest_ram_mmap_zap_seq) },
        Field { key: "last_mmap_zap_status", value: FieldValue::Dec(q.last_guest_ram_mmap_zap_status as u64) },
        Field { key: "last_mmap_zap_status_name", value: FieldValue::Text(spec_mmap_zap_status_name(q.last_guest_ram_mmap_zap_status)) },
        Field { key: "last_mmap_zap_gpa", value: FieldValue::Dec(q.last_guest_ram_mmap_zap_gpa) },
        Field { key: "last_mmap_zap_len", value: FieldValue::Dec(q.last_guest_ram_mmap_zap_len) },
        Field { key: "last_mmap_zap_zapped_vmas", value: FieldValue::Dec(q.last_guest_ram_mmap_zap_zapped_vmas) },
        Field { key: "last_mmap_zap_zapped_bytes", value: FieldValue::Dec(q.last_guest_ram_mmap_zap_zapped_bytes) },
        Field { key: "last_mmap_zap_errno", value: FieldValue::Int(q.last_guest_ram_mmap_zap_errno as i64) },
        Field { key: "vfio_block_reason", value: FieldValue::Dec(q.vfio_physical_reclaim_block_reason as u64) },
        Field { key: "vfio_block_state", value: FieldValue::Text(spec_vfio_block_state(q.vfio_physical_reclaim_block_reason)) },
        Field { key: "eqgate_ha_available", value: FieldValue::Dec(spec_query_flag(q, QUERY_FLAG_EQGATE_BATCH_AVAILABLE) as u64) },
    ]
}

pub open spec fn scheduler_snapshot_fields_part4(instance_id: u64, s: HyperAllocRuntimeSnapshot, q: HyperAllocQuery, m: MemoryAction, c: CpuAction, io: IoAction, decision: Decision, reason: Reason) -> Seq<Field> {
    seq![
        Field { key: "eqgate_ha_pcpu_count", value: FieldValue::Dec(q.eqgate_hyperalloc_pcpu_count) },
        Field { key: "eqgate_ha_capacity", value: FieldValue::Dec(q.eqgate_hyperalloc_queue_capacity) },
        Field { key: "eqgate_ha_pending", value: FieldValue::Dec(q.eqgate_hyperalloc_pending) },
        Field { key: "eqgate_ha_submitted", value: FieldValue::Dec(q.eqgate_hyperalloc_submitted) },
        Field { key: "eqgate_ha_drained", value: FieldValue::Dec(q.eqgate_hyperalloc_drained) },
        Field { key: "eqgate_ha_dropped", value: FieldValue::Dec(q.eqgate_hyperalloc_dropped) },
        Field { key: "eqgate_ha_last_seq", value: FieldValue::Dec(q.eqgate_hyperalloc_last_sequence) },
        Field { key: "eqgate_root_drain_execute", value: FieldValue::Dec(spec_query_flag(q, QUERY_FLAG_EQGATE_ROOT_DRAIN_EXECUTE) as u64) },
        Field { key: "eqgate_guest_hcall_enqueue", value: FieldValue::Dec(spec_query_flag(q, QUERY_FLAG_EQGATE_GUEST_HCALL_ENQUEUE) as u64) },
        Field { key: "eqgate_direct_ept_iommu_update", value: FieldValue::Dec(spec_query_flag(q, QUERY_FLAG_EQGATE_DIRECT_EPT_IOMMU_UPDATE) as u64) },
        Field { key: "physical_release_allowed", value: FieldValue::Dec(spec_query_flag(q, QUERY_FLAG_PHYSICAL_RELEASE_ALLOWED) as u64) },
        Field { key: "persistent_host_ram_consumers", value: FieldValue::Dec(spec_query_flag(q, QUERY_FLAG_PERSISTENT_HOST_RAM_CONSUMERS) as u64) },
        Field { key: "scheduler_io_backend", value: FieldValue::Text(io_backend(s.has_block_backend, s.has_vfio_backend)) },
        Field { key: "io_effect", value: FieldValue::Text(io_effect(s.scheduler_vfio_queue_goal, s.scheduler_block_io_weight, s.has_block_backend, s.has_vfio_backend)) },
        Field { key: "scheduler_eqgate_drain_budget", value: FieldValue::Dec(s.scheduler_eqgate_drain_budget as u64) },
        Field { key: "eqgate_action", value: FieldValue::Text(spec_eqgate_action_name(eqgate_action(s, q))) },
    ]
}

/// The fields of a scheduler snapshot line, given its actions and decision, in order.
pub open spec fn scheduler_snapshot_fields(instance_id: u64, s: HyperAllocRuntimeSnapshot, q: HyperAllocQuery, m: MemoryAction, c: CpuAction, io: IoAction, decision: Decision, reason: Reason) -> Seq<Field> {
    scheduler_snapshot_fields_part0(instance_id, s, q, m, c, io, decision, reason) + scheduler_snapshot_fields_part1(instance_id, s, q, m, c, io, decision, reason) + scheduler_snapshot_fields_part2(instance_id, s, q, m, c, io, decision, reason) + scheduler_snapshot_fields_part3(instance_id, s, q, m, c, io, decision, reason) + scheduler_snapshot_fields_part4(instance_id, s, q, m, c, io, decision, reason)
}

fn push_scheduler_snapshot_fields_part0(v: &mut Vec<Field>, instance_id: u64, s: &HyperAllocRuntimeSnapshot, q: &HyperAllocQuery, m: MemoryAction, c: CpuAction, io: IoAction, decision: Decision, reason: Reason)
    ensures
        final(v)@ == old(v)@ + scheduler_snapshot_fields_part0(instance_id, *s, *q, m, c, io, decision, reason),
{
    v.push(Field { key: "instance", value: FieldValue::Dec(instance_id) });
    v.push(Field { key: "memory_target_huge_frames", value: FieldValue::Dec(s.memory_target_huge_frames) });
    v.push(Field { key: "policy_enabled", value: FieldValue::Dec(s.policy_enabled as u64) });
    v.push(Field { key: "policy_target_huge_frames", value: FieldValue::Dec(s.policy_target_huge_frames) });
    v.push(Field { key: "policy_interval_ms", value: FieldValue::Dec(s.policy_interval_ms) });
    v.push(Field { key: "policy_elapsed_ms", value: FieldValue::Dec(s.policy_elapsed_ms) });
    v.push(Field { key: "policy_last_issued_seq", value: FieldValue::Dec(s.policy_last_issued_seq) });
    v.push(Field { key: "policy_last_completed_seq", value: FieldValue::Dec(s.policy_last_completed_seq) });
    v.push(Field { key: "metrics_enabled", value: FieldValue::Dec(s.metrics_enabled as u64) });
    v.push(Field { key: "metrics_interval_ms", value: FieldValue::Dec(s.metrics_interval_ms) });
    v.push(Field { key: "metrics_elapsed_ms", value: FieldValue::Dec(s.metrics_elapsed_ms) });
    v.push(Field { key: "evaluator_enabled", value: FieldValue::Dec(s.evaluator_enabled as u64) });
    v.push(Field { key: "evaluator_interval_ms", value: FieldValue::Dec(s.evaluator_interval_ms) });
    v.push(Field { key: "evaluator_elapsed_ms", value: FieldValue::Dec(s.evaluator_elapsed_ms) });
    v.push(Field { key: "evaluator_target_huge_frames", value: FieldValue::Dec(s.evaluator_target_huge_frames) });
    v.push(Field { key: "eval_target_huge_frames", value: FieldValue::Dec(s.eval_target_huge_frames) });
    v.push(Field { key: "scheduler_enabled", value: FieldValue::Dec(s.scheduler_enabled as u64) });
    v.push(Field { key: "scheduler_interval_ms", value: FieldValue::Dec(s.scheduler_interval_ms) });
    v.push(Field { key: "scheduler_elapsed_ms", value: FieldValue::Dec(s.scheduler_elapsed_ms) });
    v.push(Field { key: "scheduler_target_huge_frames", value: FieldValue::Dec(s.scheduler_target_huge_frames) });
    v.push(Field { key: "scheduler_desired_vcpus", value: FieldValue::Dec(s.scheduler_desired_vcpus as u64) });
    v.push(Field { key: "scheduler_vfio_queue_goal", value: FieldValue::Dec(s.scheduler_vfio_queue_goal as u64) });
    v.push(Field { key: "scheduler_block_io_weight", value: FieldValue::Dec(s.scheduler_block_io_weight as u64) });
    v.push(Field { key: "scheduler_auto_apply", value: FieldValue::Dec(s.scheduler_auto_apply as u64) });
    assert(final(v)@ =~= old(v)@ + scheduler_snapshot_fields_part0(instance_id, *s, *q, m, c, io, decision, reason));
}

fn push_scheduler_snapshot_fields_part1(v: &mut Vec<Field>, instance_id: u64, s: &HyperAllocRuntimeSnapshot, q: &HyperAllocQuery, m: MemoryAction, c: CpuAction, io: IoAction, decision: Decision, reason: Reason)
    ensures
        final(v)@ == old(v)@ + scheduler_snapshot_fields_part1(instance_id, *s, *q, m, c, io, decision, reason),
{
    v.push(Field { key: "scheduler_memory_auto_apply", value: FieldValue::Dec(s.scheduler_memory_auto_apply as u64) });
    v.push(Field { key: "scheduler_cpu_auto_apply", value: FieldValue::Dec(s.scheduler_cpu_auto_apply as u64) });
    v.push(Field { key: "scheduler_eqgate_auto_drain", value: FieldValue::Dec(s.scheduler_eqgate_auto_drain as u64) });
    v.push(Field { key: "scheduler_adaptive", value: FieldValue::Dec(s.scheduler_adaptive as u64) });
    v.push(Field { key: "scheduler_adaptive_vfio_queue_cap", value: FieldValue::Dec(s.scheduler_adaptive_vfio_queue_cap as u64) });
    v.push(Field { key: "memory_action", value: FieldValue::Text(memory_action_name(m)) });
    v.push(Field { key: "memory_effect", value: FieldValue::Text(memory_effect_name(hyperalloc_memory_effect(q))) });
    v.push(Field { key: "cpu_action", value: FieldValue::Text(cpu_action_name(c)) });
    v.push(Field { key: "io_action", value: FieldValue::Text(io_action_name(io)) });
    v.push(Field { key: "decision", value: FieldValue::Text(decision_name(decision)) });
    v.push(Field { key: "reason", value: FieldValue::Text(reason_name(reason)) });
    v.push(Field { key: "last_seq", value: FieldValue::Dec(q.last_pagecache_shrink_seq) });
    v.push(Field { key: "pcache_req", value: FieldValue::Dec(q.pagecache_shrink_pending_requests) });
    v.push(Field { key: "pcache_done", value: FieldValue::Dec(q.pagecache_shrink_completed_requests) });
    v.push(Field { key: "pcache_failed", value: FieldValue::Dec(q.pagecache_shrink_failed_requests) });
    v.push(Field { key: "registered_frames", value: FieldValue::Dec(q.registered_frames) });
    v.push(Field { key: "unregistered_frames", value: FieldValue::Dec(q.frame_count.saturating_sub(q.registered_frames)) });
    v.push(Field { key: "installed", value: FieldValue::Dec(q.installed_frames) });
    v.push(Field { key: "soft", value: FieldValue::Dec(q.soft_reclaimed_frames) });
    v.push(Field { key: "hard", value: FieldValue::Dec(q.hard_reclaimed_frames) });
    v.push(Field { key: "reclaiming", value: FieldValue::Dec(q.reclaiming_frames) });
    v.push(Field { key: "physical_releases", value: FieldValue::Dec(q.physical_releases) });
    v.push(Field { key: "physical_allocations", value: FieldValue::Dec(q.physical_allocations) });
    v.push(Field { key: "physically_released_frames", value: FieldValue::Dec(q.physically_released_frames) });
    assert(final(v)@ =~= old(v)@ + scheduler_snapshot_fields_part1(instance_id, *s, *q, m, c, io, decision, reason));
}

fn push_scheduler_snapshot_fields_part2(v: &mut Vec<Field>, instance_id: u64, s: &HyperAllocRuntimeSnapshot, q: &HyperAllocQuery, m: MemoryAction, c: CpuAction, io: IoAction, decision: Decision, reason: Reason)
    ensures
        final(v)@ == old(v)@ + scheduler_snapshot_fields_part2(instance_id, *s, *q, m, c, io, decision, reason),
{
    v.push(Field { key: "last_physical_release_hpa", value: FieldValue::Dec(q.last_physical_release_hpa) });
    v.push(Field { key: "last_physical_allocation_hpa", value: FieldValue::Dec(q.last_physical_allocation_hpa) });
    v.push(Field { key: "last_target_huge", value: FieldValue::Dec(q.last_pagecache_shrink_target_huge_frames) });
    v.push(Field { key: "last_target_pages", value: FieldValue::Dec(q.last_pagecache_shrink_target_pages) });
    v.push(Field { key: "last_reclaimed_huge", value: FieldValue::Dec(q.last_pagecache_shrink_reclaimed_huge_frames) });
    v.push(Field { key: "last_remaining_file_huge", value: FieldValue::Dec(q.last_pagecache_shrink_remaining_file_huge_frames) });
    v.push(Field { key: "last_pcache_status", value: FieldValue::Dec(q.last_pagecache_shrink_status as u64) });
    v.push(Field { key: "last_pcache_errno", value: FieldValue::Int(q.last_pagecache_shrink_errno as i64) });
    v.push(Field { key: "vfio_dma_pending", value: FieldValue::Dec(q.vfio_dma_pending_requests) });
    v.push(Field { key: "vfio_dma_done", value: FieldValue::Dec(q.vfio_dma_completed_requests) });
    v.push(Field { key: "vfio_dma_failed", value: FieldValue::Dec(q.vfio_dma_failed_requests) });
    v.push(Field { key: "vfio_dma_outstanding", value: FieldValue::Dec(q.vfio_dma_outstanding) });
    v.push(Field { key: "last_vfio_dma_seq", value: FieldValue::Dec(q.last_vfio_dma_seq) });
    v.push(Field { key: "last_vfio_dma_op", value: FieldValue::Dec(q.last_vfio_dma_op as u64) });
    v.push(Field { key: "last_vfio_dma_op_name", value: FieldValue::Text(vfio_dma_op_name(q.last_vfio_dma_op)) });
    v.push(Field { key: "last_vfio_dma_status", value: FieldValue::Dec(q.last_vfio_dma_status as u64) });
    v.push(Field { key: "last_vfio_dma_status_name", value: FieldValue::Text(vfio_dma_status_name(q.last_vfio_dma_status)) });
    v.push(Field { key: "last_vfio_dma_iova", value: FieldValue::Dec(q.last_vfio_dma_iova) });
    v.push(Field { key: "last_vfio_dma_hpa", value: FieldValue::Dec(q.last_vfio_dma_hpa) });
    v.push(Field { key: "last_vfio_dma_size", value: FieldValue::Dec(q.last_vfio_dma_size) });
    v.push(Field { key: "last_vfio_dma_errno", value: FieldValue::Int(q.last_vfio_dma_errno as i64) });
    v.push(Field { key: "reclaim_dma_rollback_attempts", value: FieldValue::Dec(q.reclaim_dma_rollback_attempts) });
    v.push(Field { key: "reclaim_dma_rollback_successes", value: FieldValue::Dec(q.reclaim_dma_rollback_successes) });
    v.push(Field { key: "reclaim_dma_rollback_failures", value: FieldValue::Dec(q.reclaim_dma_rollback_failures) });
    assert(final(v)@ =~= old(v)@ + scheduler_snapshot_fields_part2(instance_id, *s, *q, m, c, io, decision, reason));
}

fn push_scheduler_snapshot_fields_part3(v: &mut Vec<Field>, instance_id: u64, s: &HyperAllocRuntimeSnapshot, q: &HyperAllocQuery, m: MemoryAction, c: CpuAction, io: IoAction, decision: Decision, reason: Reason)
    ensures
        final(v)@ == old(v)@ + scheduler_snapshot_fields_part3(instance_id, *s, *q, m, c, io, decision, reason),
{
    v.push(Field { key: "install_ept_rollback_attempts", value: FieldValue::Dec(q.install_ept_rollback_attempts) });
    v.push(Field { key: "install_ept_rollback_successes", value: FieldValue::Dec(q.install_ept_rollback_successes) });
    v.push(Field { key: "install_ept_rollback_failures", value: FieldValue::Dec(q.install_ept_rollback_failures) });
    v.push(Field { key: "mmap_gen", value: FieldValue::Dec(q.vfio_guest_ram_mmap_generation) });
    v.push(Field { key: "mmap_active", value: FieldValue::Dec(q.vfio_guest_ram_mmap_active) });
    v.push(Field { key: "mmap_current", value: FieldValue::Dec(q.vfio_guest_ram_mmap_current) });
    v.push(Field { key: "mmap_stale", value: FieldValue::Dec(q.vfio_guest_ram_mmap_stale) });
    v.push(Field { key: "mmap_seq", value: FieldValue::Dec(q.vfio_guest_ram_mmap_update_seq) });
    v.push(Field { key: "mmap_reason", value: FieldValue::Dec(q.vfio_guest_ram_mmap_last_reason as u64) });
    v.push(Field { key: "mmap_zap_pending", value: FieldValue::Dec(q.guest_ram_mmap_zap_pending_requests) });
    v.push(Field { key: "mmap_zap_done", value: FieldValue::Dec(q.guest_ram_mmap_zap_completed_requests) });
    v.push(Field { key: "mmap_zap_failed", value: FieldValue::Dec(q.guest_ram_mmap_zap_failed_requests) });
    v.push(Field { key: "mmap_zap_outstanding", value: FieldValue::Dec(q.guest_ram_mmap_zap_outstanding) });
    v.push(Field { key: "last_mmap_zap_seq", value: FieldValue::Dec(q.last_guest_ram_mmap_zap_seq) });
    v.push(Field { key: "last_mmap_zap_status", value: FieldValue::Dec(q.last_guest_ram_mmap_zap_status as u64) });
    v.push(Field { key: "last_mmap_zap_status_name", value: FieldValue::Text(mmap_zap_status_name(q.last_guest_ram_mmap_zap_status)) });
    v.push(Field { key: "last_mmap_zap_gpa", value: FieldValue::Dec(q.last_guest_ram_mmap_zap_gpa) });
    v.push(Field { key: "last_mmap_zap_len", value: FieldValue::Dec(q.last_guest_ram_mmap_zap_len) });
    v.push(Field { key: "last_mmap_zap_zapped_vmas", value: FieldValue::Dec(q.last_guest_ram_mmap_zap_zapped_vmas) });
    v.push(Field { key: "last_mmap_zap_zapped_bytes", value: FieldValue::Dec(q.last_guest_ram_mmap_zap_zapped_bytes) });
    v.push(Field { key: "last_mmap_zap_errno", value: FieldValue::Int(q.last_guest_ram_mmap_zap_errno as i64) });
    v.push(Field { key: "vfio_block_reason", value: FieldValue::Dec(q.vfio_physical_reclaim_block_reason as u64) });
    v.push(Field { key: "vfio_block_state", value: FieldValue::Text(vfio_block_state(q.vfio_physical_reclaim_block_reason)) });
    v.push(Field { key: "eqgate_ha_available", value: FieldValue::Dec(hyperalloc_query_flag(q, QUERY_FLAG_EQGATE_BATCH_AVAILABLE) as u64) });
    assert(final(v)@ =~= old(v)@ + scheduler_snapshot_fields_part3(instance_id, *s, *q, m, c, io, decision, reason));
}

fn push_scheduler_snapshot_fields_part4(v: &mut Vec<Field>, instance_id: u64, s: &HyperAllocRuntimeSnapshot, q: &HyperAllocQuery, m: MemoryAction, c: CpuAction, io: IoAction, decision: Decision, reason: Reason)
    ensures
        final(v)@ == old(v)@ + scheduler_snapshot_fields_part4(instance_id, *s, *q, m, c, io, decision, reason),
{
    v.push(Field { key: "eqgate_ha_pcpu_count", value: FieldValue::Dec(q.eqgate_hyperalloc_pcpu_count) });
    v.push(Field { key: "eqgate_ha_capacity", value: FieldValue::Dec(q.eqgate_hyperalloc_queue_capacity) });
    v.push(Field { key: "eqgate_ha_pending", value: FieldValue::Dec(q.eqgate_hyperalloc_pending) });
    v.push(Field { key: "eqgate_ha_submitted", value: FieldValue::Dec(q.eqgate_hyperalloc_submitted) });
    v.push(Field { key: "eqgate_ha_drained", value: FieldValue::Dec(q.eqgate_hyperalloc_drained) });
    v.push(Field { key: "eqgate_ha_dropped", value: FieldValue::Dec(q.eqgate_hyperalloc_dropped) });
    v.push(Field { key: "eqgate_ha_last_seq", value: FieldValue::Dec(q.eqgate_hyperalloc_last_sequence) });
    v.push(Field { key: "eqgate_root_drain_execute", value: FieldValue::Dec(hyperalloc_query_flag(q, QUERY_FLAG_EQGATE_ROOT_DRAIN_EXECUTE) as u64) });
    v.push(Field { key: "eqgate_guest_hcall_enqueue", value: FieldValue::Dec(hyperalloc_query_flag(q, QUERY_FLAG_EQGATE_GUEST_HCALL_ENQUEUE) as u64) });
    v.push(Field { key: "eqgate_direct_ept_iommu_update", value: FieldValue::Dec(hyperalloc_query_flag(q, QUERY_FLAG_EQGATE_DIRECT_EPT_IOMMU_UPDATE) as u64) });
    v.push(Field { key: "physical_release_allowed", value: FieldValue::Dec(hyperalloc_query_flag(q, QUERY_FLAG_PHYSICAL_RELEASE_ALLOWED) as u64) });
    v.push(Field { key: "persistent_host_ram_consumers", value: FieldValue::Dec(hyperalloc_query_flag(q, QUERY_FLAG_PERSISTENT_HOST_RAM_CONSUMERS) as u64) });
    v.push(Field { key: "scheduler_io_backend", value: FieldValue::Text(hyperalloc_scheduler_io_backend(s.has_block_backend, s.has_vfio_backend)) });
    v.push(Field { key: "io_effect", value: FieldValue::Text(hyperalloc_scheduler_io_effect(s.scheduler_vfio_queue_goal, s.scheduler_block_io_weight, s.has_block_backend, s.has_vfio_backend)) });
    v.push(Field { key: "scheduler_eqgate_drain_budget", value: FieldValue::Dec(s.scheduler_eqgate_drain_budget as u64) });
    v.push(Field { key: "eqgate_action", value: FieldValue::Text(eqgate_action_name(hyperalloc_scheduler_eqgate_action(s, q))) });
    assert(final(v)@ =~= old(v)@ + scheduler_snapshot_fields_part4(instance_id, *s, *q, m, c, io, decision, reason));
}

fn scheduler_snapshot_fields_vec(instance_id: u64, s: &HyperAllocRuntimeSnapshot, q: &HyperAllocQuery, m: MemoryAction, c: CpuAction, io: IoAction, decision: Decision, reason: Reason) -> (v: Vec<Field>)
    ensures
        v@ == scheduler_snapshot_fields(instance_id, *s, *q, m, c, io, decision, reason),
{
    let mut v: Vec<Field> = Vec::new();
    push_scheduler_snapshot_fields_part0(&mut v, instance_id, s, q, m, c, io, decision, reason);
    push_scheduler_snapshot_fields_part1(&mut v, instance_id, s, q, m, c, io, decision, reason);
    push_scheduler_snapshot_fields_part2(&mut v, instance_id, s, q, m, c, io, decision, reason);
    push_scheduler_snapshot_fields_part3(&mut v, instance_id, s, q, m, c, io, decision, reason);
    push_scheduler_snapshot_fields_part4(&mut v, instance_id, s, q, m, c, io, decision, reason);
    assert(v@ =~= scheduler_snapshot_fields(instance_id, *s, *q, m, c, io, decision, reason));
    v
}

pub open spec fn scheduler_tick_fields_part0(s: HyperAllocRuntimeSnapshot, q: HyperAllocQuery, decision: Decision, reason: Reason, m: MemoryAction, c: CpuAction, io: IoAction, a: HyperAllocSchedulerAdaptResult, auto: HyperAllocSchedulerAutoApplyResult, cpu: HyperAllocSchedulerCpuAutoApplyResult, ioa: HyperAllocSchedulerIoApplyResult, eq: HyperAllocSchedulerEqGateAutoDrainResult) -> Seq<Field> {
    seq![
        Field { key: "desired_vcpus", value: FieldValue::Dec(s.desired_vcpus as u64) },
        Field { key: "max_vcpus", value: FieldValue::Dec(s.max_vcpus as u64) },
        Field { key: "memory_target_huge_frames", value: FieldValue::Dec(s.memory_target_huge_frames) },
        Field { key: "scheduler_target_huge_frames", value: FieldValue::Dec(s.scheduler_target_huge_frames) },
        Field { key: "scheduler_desired_vcpus", value: FieldValue::Dec(s.scheduler_desired_vcpus as u64) },
        Field { key: "scheduler_vfio_queue_goal", value: FieldValue::Dec(s.scheduler_vfio_queue_goal as u64) },
        Field { key: "scheduler_block_io_weight", value: FieldValue::Dec(s.scheduler_block_io_weight as u64) },
        Field { key: "scheduler_auto_apply", value: FieldValue::Dec(s.scheduler_auto_apply as u64) },
        Field { key: "scheduler_memory_auto_apply", value: FieldValue::Dec(s.scheduler_memory_auto_apply as u64) },
        Field { key: "scheduler_cpu_auto_apply", value: FieldValue::Dec(s.scheduler_cpu_auto_apply as u64) },
        Field { key: "scheduler_eqgate_auto_drain", value: FieldValue::Dec(s.scheduler_eqgate_auto_drain as u64) },
        Field { key: "scheduler_adaptive", value: FieldValue::Dec(s.scheduler_adaptive as u64) },
        Field { key: "scheduler_adaptive_vfio_queue_cap", value: FieldValue::Dec(s.scheduler_adaptive_vfio_queue_cap as u64) },
        Field { key: "adaptive_result", value: FieldValue::Text(spec_outcome_name(a.result)) },
        Field { key: "adaptive_target_before", value: FieldValue::Dec(a.target_before as u64) },
        Field { key: "adaptive_target_after", value: FieldValue::Dec(a.target_after as u64) },
        Field { key: "adaptive_desired_before", value: FieldValue::Dec(a.desired_before as u64) },
        Field { key: "adaptive_desired_after", value: FieldValue::Dec(a.desired_after as u64) },
        Field { key: "adaptive_vfio_queue_before", value: FieldValue::Dec(a.vfio_queue_before as u64) },
        Field { key: "adaptive_vfio_queue_after", value: FieldValue::Dec(a.vfio_queue_after as u64) },
        Field { key: "adaptive_block_weight_before", value: FieldValue::Dec(a.block_weight_before as u64) },
        Field { key: "adaptive_block_weight_after", value: FieldValue::Dec(a.block_weight_after as u64) },
        Field { key: "adaptive_eqgate_budget_before", value: FieldValue::Dec(a.eqgate_budget_before as u64) },
        Field { key: "adaptive_eqgate_budget_after", value: FieldValue::Dec(a.eqgate_budget_after as u64) },
    ]
}

pub open spec fn scheduler_tick_fields_part1(s: HyperAllocRuntimeSnapshot, q: HyperAllocQuery, decision: Decision, reason: Reason, m: MemoryAction, c: CpuAction, io: IoAction, a: HyperAllocSchedulerAdaptResult, auto: HyperAllocSchedulerAutoApplyResult, cpu: HyperAllocSchedulerCpuAutoApplyResult, ioa: HyperAllocSchedulerIoApplyResult, eq: HyperAllocSchedulerEqGateAutoDrainResult) -> Seq<Field> {
    seq![
        Field { key: "memory_action", value: FieldValue::Text(spec_memory_action_name(m)) },
        Field { key: "memory_effect", value: FieldValue::Text(spec_memory_effect_name(memory_effect(q))) },
        Field { key: "cpu_action", value: FieldValue::Text(spec_cpu_action_name(c)) },
        Field { key: "io_action", value: FieldValue::Text(spec_io_action_name(io)) },
        Field { key: "policy_enabled", value: FieldValue::Dec(s.policy_enabled as u64) },
        Field { key: "policy_target_huge_frames", value: FieldValue::Dec(s.policy_target_huge_frames) },
        Field { key: "metrics_enabled", value: FieldValue::Dec(s.metrics_enabled as u64) },
        Field { key: "evaluator_enabled", value: FieldValue::Dec(s.evaluator_enabled as u64) },
        Field { key: "eval_target_huge_frames", value: FieldValue::Dec(s.eval_target_huge_frames) },
        Field { key: "decision", value: FieldValue::Text(spec_decision_name(decision)) },
        Field { key: "reason", value: FieldValue::Text(spec_reason_name(reason)) },
        Field { key: "auto_apply_result", value: FieldValue::Text(spec_outcome_name(auto.result)) },
        Field { key: "auto_apply_seq", value: FieldValue::Dec(auto.sequence as u64) },
        Field { key: "auto_apply_status", value: FieldValue::Dec(auto.status as u64) },
        Field { key: "auto_apply_target_pages", value: FieldValue::Dec(auto.target_pages as u64) },
        Field { key: "auto_apply_timeout_ms", value: FieldValue::Dec(auto.timeout_ms as u64) },
        Field { key: "cpu_auto_apply_result", value: FieldValue::Text(spec_outcome_name(cpu.result)) },
        Field { key: "cpu_auto_apply_desired_before", value: FieldValue::Dec(cpu.desired_before as u64) },
        Field { key: "cpu_auto_apply_desired_after", value: FieldValue::Dec(cpu.desired_after as u64) },
        Field { key: "cpu_auto_apply_max_vcpus", value: FieldValue::Dec(cpu.max_vcpus as u64) },
        Field { key: "block_policy_result", value: FieldValue::Text(spec_outcome_name(ioa.block_policy_result)) },
        Field { key: "vfio_channel_result", value: FieldValue::Text(spec_outcome_name(ioa.vfio_channel_result)) },
        Field { key: "last_seq", value: FieldValue::Dec(q.last_pagecache_shrink_seq) },
        Field { key: "pcache_req", value: FieldValue::Dec(q.pagecache_shrink_pending_requests) },
    ]
}

pub open spec fn scheduler_tick_fields_part2(s: HyperAllocRuntimeSnapshot, q: HyperAllocQuery, decision: Decision, reason: Reason, m: MemoryAction, c: CpuAction, io: IoAction, a: HyperAllocSchedulerAdaptResult, auto: HyperAllocSchedulerAutoApplyResult, cpu: HyperAllocSchedulerCpuAutoApplyResult, ioa: HyperAllocSchedulerIoApplyResult, eq: HyperAllocSchedulerEqGateAutoDrainResult) -> Seq<Field> {
    seq![
        Field { key: "pcache_done", value: FieldValue::Dec(q.pagecache_shrink_completed_requests) },
        Field { key: "pcache_failed", value: FieldValue::Dec(q.pagecache_shrink_failed_requests) },
        Field { key: "registered_frames", value: FieldValue::Dec(q.registered_frames) },
        Field { key: "unregistered_frames", value: FieldValue::Dec(unregistered_frames(q)) },
        Field { key: "installed", value: FieldValue::Dec(q.installed_frames) },
        Field { key: "soft", value: FieldValue::Dec(q.soft_reclaimed_frames) },
        Field { key: "hard", value: FieldValue::Dec(q.hard_reclaimed_frames) },
        Field { key: "reclaiming", value: FieldValue::Dec(q.reclaiming_frames) },
        Field { key: "physical_releases", value: FieldValue::Dec(q.physical_releases) },
        Field { key: "physical_allocations", value: FieldValue::Dec(q.physical_allocations) },
        Field { key: "physically_released_frames", value: FieldValue::Dec(q.physically_released_frames) },
        Field { key: "last_physical_release_hpa", value: FieldValue::Dec(q.last_physical_release_hpa) },
        Field { key: "last_physical_allocation_hpa", value: FieldValue::Dec(q.last_physical_allocation_hpa) },
        Field { key: "vfio_dma_pending", value: FieldValue::Dec(q.vfio_dma_pending_requests) },
        Field { key: "vfio_dma_done", value: FieldValue::Dec(q.vfio_dma_completed_requests) },
        Field { key: "vfio_dma_failed", value: FieldValue::Dec(q.vfio_dma_failed_requests) },
        Field { key: "vfio_dma_outstanding", value: FieldValue::Dec(q.vfio_dma_outstanding) },
        Field { key: "last_vfio_dma_seq", value: FieldValue::Dec(q.last_vfio_dma_seq) },
        Field { key: "last_vfio_dma_op", value: FieldValue::Dec(q.last_vfio_dma_op as u64) },
        Field { key: "last_vfio_dma_op_name", value: FieldValue::Text(spec_vfio_dma_op_name(q.last_vfio_dma_op)) },
        Field { key: "last_vfio_dma_status", value: FieldValue::Dec(q.last_vfio_dma_status as u64) },
        Field { key: "last_vfio_dma_status_name", value: FieldValue::Text(spec_vfio_dma_status_name(q.last_vfio_dma_status)) },
        Field { key: "last_vfio_dma_iova", value: FieldValue::Dec(q.last_vfio_dma_iova) },
        Field { key: "last_vfio_dma_hpa", value: FieldValue::Dec(q.last_vfio_dma_hpa) },
    ]
}

pub open spec fn scheduler_tick_fields_part3(s: HyperAllocRuntimeSnapshot, q: HyperAllocQuery, decision: Decision, reason: Reason, m: MemoryAction, c: CpuAction, io: IoAction, a: HyperAllocSchedulerAdaptResult, auto: HyperAllocSchedulerAutoApplyResult, cpu: HyperAllocSchedulerCpuAutoApplyResult, ioa: HyperAllocSchedulerIoApplyResult, eq: HyperAllocSchedulerEqGateAutoDrainResult) -> Seq<Field> {
    seq![
        Field { key: "last_vfio_dma_size", value: FieldValue::Dec(q.last_vfio_dma_size) },
        Field { key: "last_vfio_dma_errno", value: FieldValue::Int(q.last_vfio_dma_errno as i64) },
        Field { key: "reclaim_dma_rollback_attempts", value: FieldValue::Dec(q.reclaim_dma_rollback_attempts) },
        Field { key: "reclaim_dma_rollback_successes", value: FieldValue::Dec(q.reclaim_dma_rollback_successes) },
        Field { key: "reclaim_dma_rollback_failures", value: FieldValue::Dec(q.reclaim_dma_rollback_failures) },
        Field { key: "install_ept_rollback_attempts", value: FieldValue::Dec(q.install_ept_rollback_attempts) },
        Field { key: "install_ept_rollback_successes", value: FieldValue::Dec(q.install_ept_rollback_successes) },
        Field { key: "install_ept_rollback_failures", value: FieldValue::Dec(q.install_ept_rollback_failures) },
        Field { key: "mmap_active", value: FieldValue::Dec(q.vfio_guest_ram_mmap_active) },
        Field { key: "mmap_current", value: FieldValue::Dec(q.vfio_guest_ram_mmap_current) },
        Field { key: "mmap_stale", value: FieldValue::Dec(q.vfio_guest_ram_mmap_stale) },
        Field { key: "mmap_zap_pending", value: FieldValue::Dec(q.guest_ram_mmap_zap_pending_requests) },
        Field { key: "mmap_zap_done", value: FieldValue::Dec(q.guest_ram_mmap_zap_completed_requests) },
        Field { key: "mmap_zap_failed", value: FieldValue::Dec(q.guest_ram_mmap_zap_failed_requests) },
        Field { key: "mmap_zap_outstanding", value: FieldValue::Dec(q.guest_ram_mmap_zap_outstanding) },
        Field { key: "last_mmap_zap_seq", value: FieldValue::Dec(q.last_guest_ram_mmap_zap_seq) },
        Field { key: "last_mmap_zap_status", value: FieldValue::Dec(q.last_guest_ram_mmap_zap_status as u64) },
        Field { key: "last_mmap_zap_status_name", value: FieldValue::Text(spec_mmap_zap_status_name(q.last_guest_ram_mmap_zap_status)) },
        Field { key: "last_mmap_zap_gpa", value: FieldValue::Dec(q.last_guest_ram_mmap_zap_gpa) },
        Field { key: "last_mmap_zap_len", value: FieldValue::Dec(q.last_guest_ram_mmap_zap_len) },
        Field { key: "last_mmap_zap_zapped_vmas", value: FieldValue::Dec(q.last_guest_ram_mmap_zap_zapped_vmas) },
        Field { key: "last_mmap_zap_zapped_bytes", value: FieldValue::Dec(q.last_guest_ram_mmap_zap_zapped_bytes) },
        Field { key: "last_mmap_zap_errno", value: FieldValue::Int(q.last_guest_ram_mmap_zap_errno as i64) },
        Field { key: "vfio_block_reason", value: FieldValue::Dec(q.vfio_physical_reclaim_block_reason as u64) },
    ]
}

pub open spec fn scheduler_tick_fields_part4(s: HyperAllocRuntimeSnapshot, q: HyperAllocQuery, decision: Decision, reason: Reason, m: MemoryAction, c: CpuAction, io: IoAction, a: HyperAllocSchedulerAdaptResult, auto: HyperAllocSchedulerAutoApplyResult, cpu: HyperAllocSchedulerCpuAutoApplyResult, ioa: HyperAllocSchedulerIoApplyResult, eq: HyperAllocSchedulerEqGateAutoDrainResult) -> Seq<Field> {
    seq![
        Field { key: "vfio_block_state", value: FieldValue::Text(spec_vfio_block_state(q.vfio_physical_reclaim_block_reason)) },
        Field { key: "eqgate_ha_available", value: FieldValue::Dec(spec_query_flag(q, QUERY_FLAG_EQGATE_BATCH_AVAILABLE) as u64) },
        Field { key: "eqgate_ha_pcpu_count", value: FieldValue::Dec(q.eqgate_hyperalloc_pcpu_count) },
        Field { key: "eqgate_ha_capacity", value: FieldValue::Dec(q.eqgate_hyperalloc_queue_capacity) },
        Field { key: "eqgate_ha_pending", value: FieldValue::Dec(q.eqgate_hyperalloc_pending) },
        Field { key: "eqgate_ha_submitted", value: FieldValue::Dec(q.eqgate_hyperalloc_submitted) },
        Field { key: "eqgate_ha_drained", value: FieldValue::Dec(q.eqgate_hyperalloc_drained) },
        Field { key: "eqgate_ha_dropped", value: FieldValue::Dec(q.eqgate_hyperalloc_dropped) },
        Field { key: "eqgate_ha_last_seq", value: FieldValue::Dec(q.eqgate_hyperalloc_last_sequence) },
        Field { key: "eqgate_root_drain_execute", value: FieldValue::Dec(spec_query_flag(q, QUERY_FLAG_EQGATE_ROOT_DRAIN_EXECUTE) as u64) },
        Field { key: "eqgate_guest_hcall_enqueue", value: FieldValue::Dec(spec_query_flag(q, QUERY_FLAG_EQGATE_GUEST_HCALL_ENQUEUE) as u64) },
        Field { key: "eqgate_direct_ept_iommu_update", value: FieldValue::Dec(spec_query_flag(q, QUERY_FLAG_EQGATE_DIRECT_EPT_IOMMU_UPDATE) as u64) },
        Field { key: "physical_release_allowed", value: FieldValue::Dec(spec_query_flag(q, QUERY_FLAG_PHYSICAL_RELEASE_ALLOWED) as u64) },
        Field { key: "persistent_host_ram_consumers", value: FieldValue::Dec(spec_query_flag(q, QUERY_FLAG_PERSISTENT_HOST_RAM_CONSUMERS) as u64) },
        Field { key: "scheduler_io_backend", value: FieldValue::Text(io_backend(s.has_block_backend, s.has_vfio_backend)) },
        Field { key: "io_effect", value: FieldValue::Text(io_effect(s.scheduler_vfio_queue_goal, s.scheduler_block_io_weight, s.has_block_backend, s.has_vfio_backend)) },
        Field { key: "scheduler_eqgate_drain_budget", value: FieldValue::Dec(s.scheduler_eqgate_drain_budget as u64) },
        Field { key: "eqgate_action", value: FieldValue::Text(spec_eqgate_action_name(eqgate_action(s, q))) },
        Field { key: "eqgate_auto_drain_result", value: FieldValue::Text(spec_outcome_name(eq.result)) },
        Field { key: "eqgate_auto_drain_flags", value: FieldValue::Hex(eq.flags as u64) },
        Field { key: "eqgate_auto_drain_max_requests", value: FieldValue::Dec(eq.max_requests as u64) },
        Field { key: "eqgate_auto_drain_visited_pcpus", value: FieldValue::Dec(eq.visited_pcpus as u64) },
        Field { key: "eqgate_auto_drain_pending_before", value: FieldValue::Dec(eq.pending_before as u64) },
        Field { key: "eqgate_auto_drain_drained", value: FieldValue::Dec(eq.drained as u64) },
    ]
}

pub open spec fn scheduler_tick_fields_part5(s: HyperAllocRuntimeSnapshot, q: HyperAllocQuery, decision: Decision, reason: Reason, m: MemoryAction, c: CpuAction, io: IoAction, a: HyperAllocSchedulerAdaptResult, auto: HyperAllocSchedulerAutoApplyResult, cpu: HyperAllocSchedulerCpuAutoApplyResult, ioa: HyperAllocSchedulerIoApplyResult, eq: HyperAllocSchedulerEqGateAutoDrainResult) -> Seq<Field> {
    seq![
        Field { key: "eqgate_auto_drain_installed", value: FieldValue::Dec(eq.installed as u64) },
        Field { key: "eqgate_auto_drain_unsupported", value: FieldValue::Dec(eq.unsupported as u64) },
        Field { key: "eqgate_auto_drain_failed", value: FieldValue::Dec(eq.failed as u64) },
        Field { key: "eqgate_auto_drain_pending_after", value: FieldValue::Dec(eq.pending_after as u64) },
        Field { key: "eqgate_auto_drain_last_seq", value: FieldValue::Dec(eq.last_sequence as u64) },
        Field { key: "eqgate_auto_drain_skipped", value: FieldValue::Dec(eq.skipped as u64) },
        Field { key: "eqgate_auto_drain_blocked_by_other_instance", value: FieldValue::Dec(eq.blocked_by_other_instance as u64) },
    ]
}

/// The fields of a scheduler tick line, in order.
pub open spec fn scheduler_tick_fields(s: HyperAllocRuntimeSnapshot, q: HyperAllocQuery, decision: Decision, reason: Reason, m: MemoryAction, c: CpuAction, io: IoAction, a: HyperAllocSchedulerAdaptResult, auto: HyperAllocSchedulerAutoApplyResult, cpu: HyperAllocSchedulerCpuAutoApplyResult, ioa: HyperAllocSchedulerIoApplyResult, eq: HyperAllocSchedulerEqGateAutoDrainResult) -> Seq<Field> {
    scheduler_tick_fields_part0(s, q, decision, reason, m, c, io, a, auto, cpu, ioa, eq) + scheduler_tick_fields_part1(s, q, decision, reason, m, c, io, a, auto, cpu, ioa, eq) + scheduler_tick_fields_part2(s, q, decision, reason, m, c, io, a, auto, cpu, ioa, eq) + scheduler_tick_fields_part3(s, q, decision, reason, m, c, io, a, auto, cpu, ioa, eq) + scheduler_tick_fields_part4(s, q, decision, reason, m, c, io, a, auto, cpu, ioa, eq) + scheduler_tick_fields_part5(s, q, decision, reason, m, c, io, a, auto, cpu, ioa, eq)
}

fn push_scheduler_tick_fields_part0(v: &mut Vec<Field>, s: &HyperAllocRuntimeSnapshot, q: &HyperAllocQuery, decision: Decision, reason: Reason, m: MemoryAction, c: CpuAction, io: IoAction, a: &HyperAllocSchedulerAdaptResult, auto: &HyperAllocSchedulerAutoApplyResult, cpu: &HyperAllocSchedulerCpuAutoApplyResult, ioa: &HyperAllocSchedulerIoApplyResult, eq: &HyperAllocSchedulerEqGateAutoDrainResult)
    ensures
        final(v)@ == old(v)@ + scheduler_tick_fields_part0(*s, *q, decision, reason, m, c, io, *a, *auto, *cpu, *ioa, *eq),
{
    v.push(Field { key: "desired_vcpus", value: FieldValue::Dec(s.desired_vcpus as u64) });
    v.push(Field { key: "max_vcpus", value: FieldValue::Dec(s.max_vcpus as u64) });
    v.push(Field { key: "memory_target_huge_frames", value: FieldValue::Dec(s.memory_target_huge_frames) });
    v.push(Field { key: "scheduler_target_huge_frames", value: FieldValue::Dec(s.scheduler_target_huge_frames) });
    v.push(Field { key: "scheduler_desired_vcpus", value: FieldValue::Dec(s.scheduler_desired_vcpus as u64) });
    v.push(Field { key: "scheduler_vfio_queue_goal", value: FieldValue::Dec(s.scheduler_vfio_queue_goal as u64) });
    v.push(Field { key: "scheduler_block_io_weight", value: FieldValue::Dec(s.scheduler_block_io_weight as u64) });
    v.push(Field { key: "scheduler_auto_apply", value: FieldValue::Dec(s.scheduler_auto_apply as u64) });
    v.push(Field { key: "scheduler_memory_auto_apply", value: FieldValue::Dec(s.scheduler_memory_auto_apply as u64) });
    v.push(Field { key: "scheduler_cpu_auto_apply", value: FieldValue::Dec(s.scheduler_cpu_auto_apply as u64) });
    v.push(Field { key: "scheduler_eqgate_auto_drain", value: FieldValue::Dec(s.scheduler_eqgate_auto_drain as u64) });
    v.push(Field { key: "scheduler_adaptive", value: FieldValue::Dec(s.scheduler_adaptive as u64) });
    v.push(Field { key: "scheduler_adaptive_vfio_queue_cap", value: FieldValue::Dec(s.scheduler_adaptive_vfio_queue_cap as u64) });
    v.push(Field { key: "adaptive_result", value: FieldValue::Text(outcome_name(a.result)) });
    v.push(Field { key: "adaptive_target_before", value: FieldValue::Dec(a.target_before as u64) });
    v.push(Field { key: "adaptive_target_after", value: FieldValue::Dec(a.target_after as u64) });
    v.push(Field { key: "adaptive_desired_before", value: FieldValue::Dec(a.desired_before as u64) });
    v.push(Field { key: "adaptive_desired_after", value: FieldValue::Dec(a.desired_after as u64) });
    v.push(Field { key: "adaptive_vfio_queue_before", value: FieldValue::Dec(a.vfio_queue_before as u64) });
    v.push(Field { key: "adaptive_vfio_queue_after", value: FieldValue::Dec(a.vfio_queue_after as u64) });
    v.push(Field { key: "adaptive_block_weight_before", value: FieldValue::Dec(a.block_weight_before as u64) });
    v.push(Field { key: "adaptive_block_weight_after", value: FieldValue::Dec(a.block_weight_after as u64) });
    v.push(Field { key: "adaptive_eqgate_budget_before", value: FieldValue::Dec(a.eqgate_budget_before as u64) });
    v.push(Field { key: "adaptive_eqgate_budget_after", value: FieldValue::Dec(a.eqgate_budget_after as u64) });
    assert(final(v)@ =~= old(v)@ + scheduler_tick_fields_part0(*s, *q, decision, reason, m, c, io, *a, *auto, *cpu, *ioa, *eq));
}

fn push_scheduler_tick_fields_part1(v: &mut Vec<Field>, s: &HyperAllocRuntimeSnapshot, q: &HyperAllocQuery, decision: Decision, reason: Reason, m: MemoryAction, c: CpuAction, io: IoAction, a: &HyperAllocSchedulerAdaptResult, auto: &HyperAllocSchedulerAutoApplyResult, cpu: &HyperAllocSchedulerCpuAutoApplyResult, ioa: &HyperAllocSchedulerIoApplyResult, eq: &HyperAllocSchedulerEqGateAutoDrainResult)
    ensures
        final(v)@ == old(v)@ + scheduler_tick_fields_part1(*s, *q, decision, reason, m, c, io, *a, *auto, *cpu, *ioa, *eq),
{
    v.push(Field { key: "memory_action", value: FieldValue::Text(memory_action_name(m)) });
    v.push(Field { key: "memory_effect", value: FieldValue::Text(memory_effect_name(hyperalloc_memory_effect(q))) });
    v.push(Field { key: "cpu_action", value: FieldValue::Text(cpu_action_name(c)) });
    v.push(Field { key: "io_action", value: FieldValue::Text(io_action_name(io)) });
    v.push(Field { key: "policy_enabled", value: FieldValue::Dec(s.policy_enabled as u64) });
    v.push(Field { key: "policy_target_huge_frames", value: FieldValue::Dec(s.policy_target_huge_frames) });
    v.push(Field { key: "metrics_enabled", value: FieldValue::Dec(s.metrics_enabled as u64) });
    v.push(Field { key: "evaluator_enabled", value: FieldValue::Dec(s.evaluator_enabled as u64) });
    v.push(Field { key: "eval_target_huge_frames", value: FieldValue::Dec(s.eval_target_huge_frames) });
    v.push(Field { key: "decision", value: FieldValue::Text(decision_name(decision)) });
    v.push(Field { key: "reason", value: FieldValue::Text(reason_name(reason)) });
    v.push(Field { key: "auto_apply_result", value: FieldValue::Text(outcome_name(auto.result)) });
    v.push(Field { key: "auto_apply_seq", value: FieldValue::Dec(auto.sequence as u64) });
    v.push(Field { key: "auto_apply_status", value: FieldValue::Dec(auto.status as u64) });
    v.push(Field { key: "auto_apply_target_pages", value: FieldValue::Dec(auto.target_pages as u64) });
    v.push(Field { key: "auto_apply_timeout_ms", value: FieldValue::Dec(auto.timeout_ms as u64) });
    v.push(Field { key: "cpu_auto_apply_result", value: FieldValue::Text(outcome_name(cpu.result)) });
    v.push(Field { key: "cpu_auto_apply_desired_before", value: FieldValue::Dec(cpu.desired_before as u64) });
    v.push(Field { key: "cpu_auto_apply_desired_after", value: FieldValue::Dec(cpu.desired_after as u64) });
    v.push(Field { key: "cpu_auto_apply_max_vcpus", value: FieldValue::Dec(cpu.max_vcpus as u64) });
    v.push(Field { key: "block_policy_result", value: FieldValue::Text(outcome_name(ioa.block_policy_result)) });
    v.push(Field { key: "vfio_channel_result", value: FieldValue::Text(outcome_name(ioa.vfio_channel_result)) });
    v.push(Field { key: "last_seq", value: FieldValue::Dec(q.last_pagecache_shrink_seq) });
    v.push(Field { key: "pcache_req", value: FieldValue::Dec(q.pagecache_shrink_pending_requests) });
    assert(final(v)@ =~= old(v)@ + scheduler_tick_fields_part1(*s, *q, decision, reason, m, c, io, *a, *auto, *cpu, *ioa, *eq));
}

fn push_scheduler_tick_fields_part2(v: &mut Vec<Field>, s: &HyperAllocRuntimeSnapshot, q: &HyperAllocQuery, decision: Decision, reason: Reason, m: MemoryAction, c: CpuAction, io: IoAction, a: &HyperAllocSchedulerAdaptResult, auto: &HyperAllocSchedulerAutoApplyResult, cpu: &HyperAllocSchedulerCpuAutoApplyResult, ioa: &HyperAllocSchedulerIoApplyResult, eq: &HyperAllocSchedulerEqGateAutoDrainResult)
    ensures
        final(v)@ == old(v)@ + scheduler_tick_fields_part2(*s, *q, decision, reason, m, c, io, *a, *auto, *cpu, *ioa, *eq),
{
    v.push(Field { key: "pcache_done", value: FieldValue::Dec(q.pagecache_shrink_completed_requests) });
    v.push(Field { key: "pcache_failed", value: FieldValue::Dec(q.pagecache_shrink_failed_requests) });
    v.push(Field { key: "registered_frames", value: FieldValue::Dec(q.registered_frames) });
    v.push(Field { key: "unregistered_frames", value: FieldValue::Dec(q.frame_count.saturating_sub(q.registered_frames)) });
    v.push(Field { key: "installed", value: FieldValue::Dec(q.installed_frames) });
    v.push(Field { key: "soft", value: FieldValue::Dec(q.soft_reclaimed_frames) });
    v.push(Field { key: "hard", value: FieldValue::Dec(q.hard_reclaimed_frames) });
    v.push(Field { key: "reclaiming", value: FieldValue::Dec(q.reclaiming_frames) });
    v.push(Field { key: "physical_releases", value: FieldValue::Dec(q.physical_releases) });
    v.push(Field { key: "physical_allocations", value: FieldValue::Dec(q.physical_allocations) });
    v.push(Field { key: "physically_released_frames", value: FieldValue::Dec(q.physically_released_frames) });
    v.push(Field { key: "last_physical_release_hpa", value: FieldValue::Dec(q.last_physical_release_hpa) });
    v.push(Field { key: "last_physical_allocation_hpa", value: FieldValue::Dec(q.last_physical_allocation_hpa) });
    v.push(Field { key: "vfio_dma_pending", value: FieldValue::Dec(q.vfio_dma_pending_requests) });
    v.push(Field { key: "vfio_dma_done", value: FieldValue::Dec(q.vfio_dma_completed_requests) });
    v.push(Field { key: "vfio_dma_failed", value: FieldValue::Dec(q.vfio_dma_failed_requests) });
    v.push(Field { key: "vfio_dma_outstanding", value: FieldValue::Dec(q.vfio_dma_outstanding) });
    v.push(Field { key: "last_vfio_dma_seq", value: FieldValue::Dec(q.last_vfio_dma_seq) });
    v.push(Field { key: "last_vfio_dma_op", value: FieldValue::Dec(q.last_vfio_dma_op as u64) });
    v.push(Field { key: "last_vfio_dma_op_name", value: FieldValue::Text(vfio_dma_op_name(q.last_vfio_dma_op)) });
    v.push(Field { key: "last_vfio_dma_status", value: FieldValue::Dec(q.last_vfio_dma_status as u64) });
    v.push(Field { key: "last_vfio_dma_status_name", value: FieldValue::Text(vfio_dma_status_name(q.last_vfio_dma_status)) });
    v.push(Field { key: "last_vfio_dma_iova", value: FieldValue::Dec(q.last_vfio_dma_iova) });
    v.push(Field { key: "last_vfio_dma_hpa", value: FieldValue::Dec(q.last_vfio_dma_hpa) });
    assert(final(v)@ =~= old(v)@ + scheduler_tick_fields_part2(*s, *q, decision, reason, m, c, io, *a, *auto, *cpu, *ioa, *eq));
}

fn push_scheduler_tick_fields_part3(v: &mut Vec<Field>, s: &HyperAllocRuntimeSnapshot, q: &HyperAllocQuery, decision: Decision, reason: Reason, m: MemoryAction, c: CpuAction, io: IoAction, a: &HyperAllocSchedulerAdaptResult, auto: &HyperAllocSchedulerAutoApplyResult, cpu: &HyperAllocSchedulerCpuAutoApplyResult, ioa: &HyperAllocSchedulerIoApplyResult, eq: &HyperAllocSchedulerEqGateAutoDrainResult)
    ensures
        final(v)@ == old(v)@ + scheduler_tick_fields_part3(*s, *q, decision, reason, m, c, io, *a, *auto, *cpu, *ioa, *eq),
{
    v.push(Field { key: "last_vfio_dma_size", value: FieldValue::Dec(q.last_vfio_dma_size) });
    v.push(Field { key: "last_vfio_dma_errno", value: FieldValue::Int(q.last_vfio_dma_errno as i64) });
    v.push(Field { key: "reclaim_dma_rollback_attempts", value: FieldValue::Dec(q.reclaim_dma_rollback_attempts) });
    v.push(Field { key: "reclaim_dma_rollback_successes", value: FieldValue::Dec(q.reclaim_dma_rollback_successes) });
    v.push(Field { key: "reclaim_dma_rollback_failures", value: FieldValue::Dec(q.reclaim_dma_rollback_failures) });
    v.push(Field { key: "install_ept_rollback_attempts", value: FieldValue::Dec(q.install_ept_rollback_attempts) });
    v.push(Field { key: "install_ept_rollback_successes", value: FieldValue::Dec(q.install_ept_rollback_successes) });
    v.push(Field { key: "install_ept_rollback_failures", value: FieldValue::Dec(q.install_ept_rollback_failures) });
    v.push(Field { key: "mmap_active", value: FieldValue::Dec(q.vfio_guest_ram_mmap_active) });
    v.push(Field { key: "mmap_current", value: FieldValue::Dec(q.vfio_guest_ram_mmap_current) });
    v.push(Field { key: "mmap_stale", value: FieldValue::Dec(q.vfio_guest_ram_mmap_stale) });
    v.push(Field { key: "mmap_zap_pending", value: FieldValue::Dec(q.guest_ram_mmap_zap_pending_requests) });
    v.push(Field { key: "mmap_zap_done", value: FieldValue::Dec(q.guest_ram_mmap_zap_completed_requests) });
    v.push(Field { key: "mmap_zap_failed", value: FieldValue::Dec(q.guest_ram_mmap_zap_failed_requests) });
    v.push(Field { key: "mmap_zap_outstanding", value: FieldValue::Dec(q.guest_ram_mmap_zap_outstanding) });
    v.push(Field { key: "last_mmap_zap_seq", value: FieldValue::Dec(q.last_guest_ram_mmap_zap_seq) });
    v.push(Field { key: "last_mmap_zap_status", value: FieldValue::Dec(q.last_guest_ram_mmap_zap_status as u64) });
    v.push(Field { key: "last_mmap_zap_status_name", value: FieldValue::Text(mmap_zap_status_name(q.last_guest_ram_mmap_zap_status)) });
    v.push(Field { key: "last_mmap_zap_gpa", value: FieldValue::Dec(q.last_guest_ram_mmap_zap_gpa) });
    v.push(Field { key: "last_mmap_zap_len", value: FieldValue::Dec(q.last_guest_ram_mmap_zap_len) });
    v.push(Field { key: "last_mmap_zap_zapped_vmas", value: FieldValue::Dec(q.last_guest_ram_mmap_zap_zapped_vmas) });
    v.push(Field { key: "last_mmap_zap_zapped_bytes", value: FieldValue::Dec(q.last_guest_ram_mmap_zap_zapped_bytes) });
    v.push(Field { key: "last_mmap_zap_errno", value: FieldValue::Int(q.last_guest_ram_mmap_zap_errno as i64) });
    v.push(Field { key: "vfio_block_reason", value: FieldValue::Dec(q.vfio_physical_reclaim_block_reason as u64) });
    assert(final(v)@ =~= old(v)@ + scheduler_tick_fields_part3(*s, *q, decision, reason, m, c, io, *a, *auto, *cpu, *ioa, *eq));
}

fn push_scheduler_tick_fields_part4(v: &mut Vec<Field>, s: &HyperAllocRuntimeSnapshot, q: &HyperAllocQuery, decision: Decision, reason: Reason, m: MemoryAction, c: CpuAction, io: IoAction, a: &HyperAllocSchedulerAdaptResult, auto: &HyperAllocSchedulerAutoApplyResult, cpu: &HyperAllocSchedulerCpuAutoApplyResult, ioa: &HyperAllocSchedulerIoApplyResult, eq: &HyperAllocSchedulerEqGateAutoDrainResult)
    ensures
        final(v)@ == old(v)@ + scheduler_tick_fields_part4(*s, *q, decision, reason, m, c, io, *a, *auto, *cpu, *ioa, *eq),
{
    v.push(Field { key: "vfio_block_state", value: FieldValue::Text(vfio_block_state(q.vfio_physical_reclaim_block_reason)) });
    v.push(Field { key: "eqgate_ha_available", value: FieldValue::Dec(hyperalloc_query_flag(q, QUERY_FLAG_EQGATE_BATCH_AVAILABLE) as u64) });
    v.push(Field { key: "eqgate_ha_pcpu_count", value: FieldValue::Dec(q.eqgate_hyperalloc_pcpu_count) });
    v.push(Field { key: "eqgate_ha_capacity", value: FieldValue::Dec(q.eqgate_hyperalloc_queue_capacity) });
    v.push(Field { key: "eqgate_ha_pending", value: FieldValue::Dec(q.eqgate_hyperalloc_pending) });
    v.push(Field { key: "eqgate_ha_submitted", value: FieldValue::Dec(q.eqgate_hyperalloc_submitted) });
    v.push(Field { key: "eqgate_ha_drained", value: FieldValue::Dec(q.eqgate_hyperalloc_drained) });
    v.push(Field { key: "eqgate_ha_dropped", value: FieldValue::Dec(q.eqgate_hyperalloc_dropped) });
    v.push(Field { key: "eqgate_ha_last_seq", value: FieldValue::Dec(q.eqgate_hyperalloc_last_sequence) });
    v.push(Field { key: "eqgate_root_drain_execute", value: FieldValue::Dec(hyperalloc_query_flag(q, QUERY_FLAG_EQGATE_ROOT_DRAIN_EXECUTE) as u64) });
    v.push(Field { key: "eqgate_guest_hcall_enqueue", value: FieldValue::Dec(hyperalloc_query_flag(q, QUERY_FLAG_EQGATE_GUEST_HCALL_ENQUEUE) as u64) });
    v.push(Field { key: "eqgate_direct_ept_iommu_update", value: FieldValue::Dec(hyperalloc_query_flag(q, QUERY_FLAG_EQGATE_DIRECT_EPT_IOMMU_UPDATE) as u64) });
    v.push(Field { key: "physical_release_allowed", value: FieldValue::Dec(hyperalloc_query_flag(q, QUERY_FLAG_PHYSICAL_RELEASE_ALLOWED) as u64) });
    v.push(Field { key: "persistent_host_ram_consumers", value: FieldValue::Dec(hyperalloc_query_flag(q, QUERY_FLAG_PERSISTENT_HOST_RAM_CONSUMERS) as u64) });
    v.push(Field { key: "scheduler_io_backend", value: FieldValue::Text(hyperalloc_scheduler_io_backend(s.has_block_backend, s.has_vfio_backend)) });
    v.push(Field { key: "io_effect", value: FieldValue::Text(hyperalloc_scheduler_io_effect(s.scheduler_vfio_queue_goal, s.scheduler_block_io_weight, s.has_block_backend, s.has_vfio_backend)) });
    v.push(Field { key: "scheduler_eqgate_drain_budget", value: FieldValue::Dec(s.scheduler_eqgate_drain_budget as u64) });
    v.push(Field { key: "eqgate_action", value: FieldValue::Text(eqgate_action_name(hyperalloc_scheduler_eqgate_action(s, q))) });
    v.push(Field { key: "eqgate_auto_drain_result", value: FieldValue::Text(outcome_name(eq.result)) });
    v.push(Field { key: "eqgate_auto_drain_flags", value: FieldValue::Hex(eq.flags as u64) });
    v.push(Field { key: "eqgate_auto_drain_max_requests", value: FieldValue::Dec(eq.max_requests as u64) });
    v.push(Field { key: "eqgate_auto_drain_visited_pcpus", value: FieldValue::Dec(eq.visited_pcpus as u64) });
    v.push(Field { key: "eqgate_auto_drain_pending_before", value: FieldValue::Dec(eq.pending_before as u64) });
    v.push(Field { key: "eqgate_auto_drain_drained", value: FieldValue::Dec(eq.drained as u64) });
    assert(final(v)@ =~= old(v)@ + scheduler_tick_fields_part4(*s, *q, decision, reason, m, c, io, *a, *auto, *cpu, *ioa, *eq));
}

fn push_scheduler_tick_fields_part5(v: &mut Vec<Field>, s: &HyperAllocRuntimeSnapshot, q: &HyperAllocQuery, decision: Decision, reason: Reason, m: MemoryAction, c: CpuAction, io: IoAction, a: &HyperAllocSchedulerAdaptResult, auto: &HyperAllocSchedulerAutoApplyResult, cpu: &HyperAllocSchedulerCpuAutoApplyResult, ioa: &HyperAllocSchedulerIoApplyResult, eq: &HyperAllocSchedulerEqGateAutoDrainResult)
    ensures
        final(v)@ == old(v)@ + scheduler_tick_fields_part5(*s, *q, decision, reason, m, c, io, *a, *auto, *cpu, *ioa, *eq),
{
    v.push(Field { key: "eqgate_auto_drain_installed", value: FieldValue::Dec(eq.installed as u64) });
    v.push(Field { key: "eqgate_auto_drain_unsupported", value: FieldValue::Dec(eq.unsupported as u64) });
    v.push(Field { key: "eqgate_auto_drain_failed", value: FieldValue::Dec(eq.failed as u64) });
    v.push(Field { key: "eqgate_auto_drain_pending_after", value: FieldValue::Dec(eq.pending_after as u64) });
    v.push(Field { key: "eqgate_auto_drain_last_seq", value: FieldValue::Dec(eq.last_sequence as u64) });
    v.push(Field { key: "eqgate_auto_drain_skipped", value: FieldValue::Dec(eq.skipped as u64) });
    v.push(Field { key: "eqgate_auto_drain_blocked_by_other_instance", value: FieldValue::Dec(eq.blocked_by_other_instance as u64) });
    assert(final(v)@ =~= old(v)@ + scheduler_tick_fields_part5(*s, *q, decision, reason, m, c, io, *a, *auto, *cpu, *ioa, *eq));
}

fn scheduler_tick_fields_vec(s: &HyperAllocRuntimeSnapshot, q: &HyperAllocQuery, decision: Decision, reason: Reason, m: MemoryAction, c: CpuAction, io: IoAction, a: &HyperAllocSchedulerAdaptResult, auto: &HyperAllocSchedulerAutoApplyResult, cpu: &HyperAllocSchedulerCpuAutoApplyResult, ioa: &HyperAllocSchedulerIoApplyResult, eq: &HyperAllocSchedulerEqGateAutoDrainResult) -> (v: Vec<Field>)
    ensures
        v@ == scheduler_tick_fields(*s, *q, decision, reason, m, c, io, *a, *auto, *cpu, *ioa, *eq),
{
    let mut v: Vec<Field> = Vec::new();
    push_scheduler_tick_fields_part0(&mut v, s, q, decision, reason, m, c, io, a, auto, cpu, ioa, eq);
    push_scheduler_tick_fields_part1(&mut v, s, q, decision, reason, m, c, io, a, auto, cpu, ioa, eq);
    push_scheduler_tick_fields_part2(&mut v, s, q, decision, reason, m, c, io, a, auto, cpu, ioa, eq);
    push_scheduler_tick_fields_part3(&mut v, s, q, decision, reason, m, c, io, a, auto, cpu, ioa, eq);
    push_scheduler_tick_fields_part4(&mut v, s, q, decision, reason, m, c, io, a, auto, cpu, ioa, eq);
    push_scheduler_tick_fields_part5(&mut v, s, q, decision, reason, m, c, io, a, auto, cpu, ioa, eq);
    assert(v@ =~= scheduler_tick_fields(*s, *q, decision, reason, m, c, io, *a, *auto, *cpu, *ioa, *eq));
    v
}

/// The target the snapshot line evaluates against: the scheduler's when it
/// runs, else the evaluator's.
pub open spec fn snapshot_eval_target(s: HyperAllocRuntimeSnapshot) -> u64 {
    if s.scheduler_enabled != 0 {
        s.scheduler_target_huge_frames
    } else {
        s.eval_target_huge_frames
    }
}

/// The scheduler snapshot line.
pub open spec fn snapshot_line(instance_id: u64, s: HyperAllocRuntimeSnapshot, q: HyperAllocQuery) -> Seq<char> {
    let (d, r) = policy_eval(q, snapshot_eval_target(s));
    let (m, c, io) = scheduler_actions(s, d);
    "scheduler_snapshot"@ + fields_text(scheduler_snapshot_fields(instance_id, s, q, m, c, io, d, r))
}

/// The scheduler snapshot line of a runtime snapshot and a query.
pub fn format_hyperalloc_scheduler_snapshot(
    instance_id: u64,
    s: &HyperAllocRuntimeSnapshot,
    q: &HyperAllocQuery,
) -> (r: String)
    ensures
        r@ == snapshot_line(instance_id, *s, *q),
{
    let eval_target = if s.scheduler_enabled != 0 {
        s.scheduler_target_huge_frames
    } else {
        s.eval_target_huge_frames
    };
    let (decision, reason) = hyperalloc_policy_eval(q, eval_target);
    let (m, c, io) = hyperalloc_scheduler_actions(s, decision);
    let fields = scheduler_snapshot_fields_vec(instance_id, s, q, m, c, io, decision, reason);
    render("scheduler_snapshot", &fields)
}

/// The scheduler tick line.
pub fn format_hyperalloc_scheduler_tick(
    s: &HyperAllocRuntimeSnapshot,
    q: &HyperAllocQuery,
    decision: Decision,
    reason: Reason,
    m: MemoryAction,
    c: CpuAction,
    io: IoAction,
    a: &HyperAllocSchedulerAdaptResult,
    auto: &HyperAllocSchedulerAutoApplyResult,
    cpu: &HyperAllocSchedulerCpuAutoApplyResult,
    ioa: &HyperAllocSchedulerIoApplyResult,
    eq: &HyperAllocSchedulerEqGateAutoDrainResult,
) -> (r: String)
    ensures
        r@ == "scheduler_tick"@ + fields_text(
            scheduler_tick_fields(*s, *q, decision, reason, m, c, io, *a, *auto, *cpu, *ioa, *eq),
        ),
{
    let fields = scheduler_tick_fields_vec(s, q, decision, reason, m, c, io, a, auto, cpu, ioa, eq);
    render("scheduler_tick", &fields)
}

} // verus!
