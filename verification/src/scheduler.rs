//! The HyperAlloc host policy, metrics sampler, policy evaluator and scheduler
//! that the microVM control server runs: their state, the runtime snapshot
//! taken of it, and the decisions the scheduler makes on each tick.
use vstd::prelude::*;
use crate::hyperalloc::{
    HyperAllocQuery, policy_eval, Decision, Reason, pagecache_outstanding,
    hyperalloc_pagecache_request_outstanding,
};
use crate::report::{Field, FieldValue, fields_text, render};
use crate::text::{dec, push_dec, push_str};

verus! {

pub const HYPERALLOC_POLICY_DEFAULT_INTERVAL_MS: u64 = 2000;
pub const HYPERALLOC_POLICY_MIN_INTERVAL_MS: u64 = 100;
pub const HYPERALLOC_METRICS_MIN_INTERVAL_MS: u64 = 100;
pub const HYPERALLOC_EVAL_DEFAULT_TARGET_HUGE_FRAMES: u64 = 1;
pub const HYPERALLOC_EVAL_MIN_INTERVAL_MS: u64 = 100;
pub const HYPERALLOC_SCHEDULER_MIN_INTERVAL_MS: u64 = 100;
pub const HYPERALLOC_SCHEDULER_DEFAULT_TARGET_HUGE_FRAMES: u64 = 1;
pub const HYPERALLOC_SCHEDULER_MAX_VFIO_QUEUE_GOAL: u16 = 1024;
pub const HYPERALLOC_SCHEDULER_MAX_BLOCK_IO_WEIGHT: u16 = 10000;
pub const HYPERALLOC_SCHEDULER_MAX_EQGATE_DRAIN_BUDGET: u32 = 1024;
pub const HYPERALLOC_SCHEDULER_ADAPTIVE_DEFAULT_VFIO_QUEUE_CAP: u16 = 1;
pub const HYPERALLOC_SCHEDULER_ADAPTIVE_BLOCK_IO_WEIGHT: u16 = 750;
pub const HYPERALLOC_SCHEDULER_ADAPTIVE_EQGATE_DRAIN_BUDGET: u32 = 16;
pub const HYPERALLOC_EQGATE_DRAIN_DEFAULT_MAX_REQUESTS: u32 = 16;
/// Timeout handed to the hypervisor with every memory target.
pub const HYPERALLOC_MEMORY_TARGET_TIMEOUT_MS: u64 = 1000;

/// The host policy that periodically issues a memory target.
#[derive(Clone, Copy, Debug)]
pub struct HyperAllocPolicy {
    pub target_huge_frames: u64,
    pub interval_ms: u64,
    pub last_tick_ms: u64,
    pub last_issued_seq: u64,
    pub last_completed_seq: u64,
}

/// The sampler that periodically logs the HyperAlloc status.
#[derive(Clone, Copy, Debug)]
pub struct HyperAllocMetricsSampler {
    pub interval_ms: u64,
    pub last_sample_ms: u64,
}

/// The evaluator that periodically logs the policy decision for a target.
#[derive(Clone, Copy, Debug)]
pub struct HyperAllocPolicyEvaluator {
    pub interval_ms: u64,
    pub last_eval_ms: u64,
    pub target_huge_frames: u64,
}

/// The scheduler: its goals and which of its actions it applies itself.
#[derive(Clone, Copy, Debug)]
pub struct HyperAllocSchedulerDryRun {
    pub interval_ms: u64,
    pub last_tick_ms: u64,
    pub target_huge_frames: u64,
    pub desired_vcpus: u8,
    pub vfio_queue_goal: u16,
    pub block_io_weight: u16,
    pub eqgate_drain_budget: u32,
    pub auto_apply: bool,
    pub cpu_auto_apply: bool,
    pub eqgate_auto_drain: bool,
    pub adaptive: bool,
    pub adaptive_vfio_queue_cap: u16,
}

/// Everything the control server knows about its instance. Times are
/// milliseconds of a monotonic clock.
#[derive(Clone, Copy, Debug)]
pub struct ControlState {
    pub instance_id: u64,
    pub has_block_backend: bool,
    pub has_vfio_backend: bool,
    pub max_vcpus: u8,
    pub desired_vcpus: u8,
    pub memory_target_huge_frames: u64,
    pub policy: Option<HyperAllocPolicy>,
    pub metrics: Option<HyperAllocMetricsSampler>,
    pub evaluator: Option<HyperAllocPolicyEvaluator>,
    pub scheduler: Option<HyperAllocSchedulerDryRun>,
    /// The I/O weight last handed to the block backend.
    pub block_backend_io_weight: u16,
}

/// A copy of the control state at one moment, with elapsed times.
#[derive(Clone, Copy, Debug)]
pub struct HyperAllocRuntimeSnapshot {
    pub desired_vcpus: u8,
    pub max_vcpus: u8,
    pub memory_target_huge_frames: u64,
    pub policy_enabled: u8,
    pub policy_target_huge_frames: u64,
    pub policy_interval_ms: u64,
    pub policy_elapsed_ms: u64,
    pub policy_last_issued_seq: u64,
    pub policy_last_completed_seq: u64,
    pub metrics_enabled: u8,
    pub metrics_interval_ms: u64,
    pub metrics_elapsed_ms: u64,
    pub evaluator_enabled: u8,
    pub evaluator_interval_ms: u64,
    pub evaluator_elapsed_ms: u64,
    pub evaluator_target_huge_frames: u64,
    pub eval_target_huge_frames: u64,
    pub scheduler_enabled: u8,
    pub scheduler_interval_ms: u64,
    pub scheduler_elapsed_ms: u64,
    pub scheduler_target_huge_frames: u64,
    pub scheduler_desired_vcpus: u8,
    pub scheduler_vfio_queue_goal: u16,
    pub scheduler_block_io_weight: u16,
    pub scheduler_eqgate_drain_budget: u32,
    pub scheduler_auto_apply: u8,
    pub scheduler_memory_auto_apply: u8,
    pub scheduler_cpu_auto_apply: u8,
    pub scheduler_eqgate_auto_drain: u8,
    pub scheduler_adaptive: u8,
    pub scheduler_adaptive_vfio_queue_cap: u16,
    pub has_block_backend: bool,
    pub has_vfio_backend: bool,
}

/// Milliseconds from `last` to `now`, zero if the clock reads earlier.
pub open spec fn elapsed(now: u64, last: u64) -> u64 {
    if now >= last {
        (now - last) as u64
    } else {
        0
    }
}

pub open spec fn b2u(b: bool) -> u8 {
    if b {
        1
    } else {
        0
    }
}

pub fn bool_to_u8(value: bool) -> (r: u8)
    ensures
        r == b2u(value),
{
    if value {
        1
    } else {
        0
    }
}

/// The runtime snapshot of a control state at time `now`: each disabled part
/// reads as zeros, and the evaluation target falls back to the default.
pub open spec fn snapshot(st: ControlState, now: u64) -> HyperAllocRuntimeSnapshot {
    let (pe, pt, pi, pel, pis, pcs) = match st.policy {
        Some(p) => (1u8, p.target_huge_frames, p.interval_ms, elapsed(now, p.last_tick_ms),
            p.last_issued_seq, p.last_completed_seq),
        None => (0u8, 0u64, 0u64, 0u64, 0u64, 0u64),
    };
    let (me, mi, mel) = match st.metrics {
        Some(m) => (1u8, m.interval_ms, elapsed(now, m.last_sample_ms)),
        None => (0u8, 0u64, 0u64),
    };
    let (ee, ei, eel, et) = match st.evaluator {
        Some(e) => (1u8, e.interval_ms, elapsed(now, e.last_eval_ms), e.target_huge_frames),
        None => (0u8, 0u64, 0u64, 0u64),
    };
    let s = st.scheduler;
    HyperAllocRuntimeSnapshot {
        desired_vcpus: st.desired_vcpus,
        max_vcpus: st.max_vcpus,
        memory_target_huge_frames: st.memory_target_huge_frames,
        policy_enabled: pe,
        policy_target_huge_frames: pt,
        policy_interval_ms: pi,
        policy_elapsed_ms: pel,
        policy_last_issued_seq: pis,
        policy_last_completed_seq: pcs,
        metrics_enabled: me,
        metrics_interval_ms: mi,
        metrics_elapsed_ms: mel,
        evaluator_enabled: ee,
        evaluator_interval_ms: ei,
        evaluator_elapsed_ms: eel,
        evaluator_target_huge_frames: et,
        eval_target_huge_frames: if ee != 0 {
            et
        } else {
            HYPERALLOC_EVAL_DEFAULT_TARGET_HUGE_FRAMES
        },
        scheduler_enabled: if s is Some { 1 } else { 0 },
        scheduler_interval_ms: if s is Some { s->0.interval_ms } else { 0 },
        scheduler_elapsed_ms: if s is Some { elapsed(now, s->0.last_tick_ms) } else { 0 },
        scheduler_target_huge_frames: if s is Some { s->0.target_huge_frames } else { 0 },
        scheduler_desired_vcpus: if s is Some { s->0.desired_vcpus } else { 0 },
        scheduler_vfio_queue_goal: if s is Some { s->0.vfio_queue_goal } else { 0 },
        scheduler_block_io_weight: if s is Some { s->0.block_io_weight } else { 0 },
        scheduler_eqgate_drain_budget: if s is Some { s->0.eqgate_drain_budget } else { 0 },
        scheduler_auto_apply: if s is Some { b2u(s->0.auto_apply) } else { 0 },
        scheduler_memory_auto_apply: if s is Some { b2u(s->0.auto_apply) } else { 0 },
        scheduler_cpu_auto_apply: if s is Some { b2u(s->0.cpu_auto_apply) } else { 0 },
        scheduler_eqgate_auto_drain: if s is Some { b2u(s->0.eqgate_auto_drain) } else { 0 },
        scheduler_adaptive: if s is Some { b2u(s->0.adaptive) } else { 0 },
        scheduler_adaptive_vfio_queue_cap: if s is Some { s->0.adaptive_vfio_queue_cap } else { 0 },
        has_block_backend: st.has_block_backend,
        has_vfio_backend: st.has_vfio_backend,
    }
}

/// The runtime snapshot of the control state at time `now`.
pub fn hyperalloc_runtime_snapshot(st: &ControlState, now: u64) -> (r: HyperAllocRuntimeSnapshot)
    ensures
        r == snapshot(*st, now),
{
    let (pe, pt, pi, pel, pis, pcs) = match st.policy {
        Some(p) => (1u8, p.target_huge_frames, p.interval_ms, now.saturating_sub(p.last_tick_ms),
            p.last_issued_seq, p.last_completed_seq),
        None => (0u8, 0u64, 0u64, 0u64, 0u64, 0u64),
    };
    let (me, mi, mel) = match st.metrics {
        Some(m) => (1u8, m.interval_ms, now.saturating_sub(m.last_sample_ms)),
        None => (0u8, 0u64, 0u64),
    };
    let (ee, ei, eel, et) = match st.evaluator {
        Some(e) => (1u8, e.interval_ms, now.saturating_sub(e.last_eval_ms), e.target_huge_frames),
        None => (0u8, 0u64, 0u64, 0u64),
    };
    let eval_target = if ee != 0 {
        et
    } else {
        HYPERALLOC_EVAL_DEFAULT_TARGET_HUGE_FRAMES
    };
    let (se, si, sel, stg, sd, sv, sb, sq, sa, sc, sg, sad, scap) = match st.scheduler {
        Some(s) => (1u8, s.interval_ms, now.saturating_sub(s.last_tick_ms), s.target_huge_frames,
            s.desired_vcpus, s.vfio_queue_goal, s.block_io_weight, s.eqgate_drain_budget,
            bool_to_u8(s.auto_apply), bool_to_u8(s.cpu_auto_apply), bool_to_u8(s.eqgate_auto_drain),
            bool_to_u8(s.adaptive), s.adaptive_vfio_queue_cap),
        None => (0u8, 0u64, 0u64, 0u64, 0u8, 0u16, 0u16, 0u32, 0u8, 0u8, 0u8, 0u8, 0u16),
    };
    HyperAllocRuntimeSnapshot {
        desired_vcpus: st.desired_vcpus,
        max_vcpus: st.max_vcpus,
        memory_target_huge_frames: st.memory_target_huge_frames,
        policy_enabled: pe,
        policy_target_huge_frames: pt,
        policy_interval_ms: pi,
        policy_elapsed_ms: pel,
        policy_last_issued_seq: pis,
        policy_last_completed_seq: pcs,
        metrics_enabled: me,
        metrics_interval_ms: mi,
        metrics_elapsed_ms: mel,
        evaluator_enabled: ee,
        evaluator_interval_ms: ei,
        evaluator_elapsed_ms: eel,
        evaluator_target_huge_frames: et,
        eval_target_huge_frames: eval_target,
        scheduler_enabled: se,
        scheduler_interval_ms: si,
        scheduler_elapsed_ms: sel,
        scheduler_target_huge_frames: stg,
        scheduler_desired_vcpus: sd,
        scheduler_vfio_queue_goal: sv,
        scheduler_block_io_weight: sb,
        scheduler_eqgate_drain_budget: sq,
        scheduler_auto_apply: sa,
        scheduler_memory_auto_apply: sa,
        scheduler_cpu_auto_apply: sc,
        scheduler_eqgate_auto_drain: sg,
        scheduler_adaptive: sad,
        scheduler_adaptive_vfio_queue_cap: scap,
        has_block_backend: st.has_block_backend,
        has_vfio_backend: st.has_vfio_backend,
    }
}

/// The scheduler's memory action for a policy decision.
#[derive(Clone, Copy, Debug, PartialEq, Eq, Structural)]
pub enum MemoryAction {
    Disabled,
    Wait,
    WouldTarget,
    Hold,
}

/// The scheduler's vCPU action.
#[derive(Clone, Copy, Debug, PartialEq, Eq, Structural)]
pub enum CpuAction {
    Disabled,
    Hold,
    WouldResize,
}

/// The scheduler's I/O action.
#[derive(Clone, Copy, Debug, PartialEq, Eq, Structural)]
pub enum IoAction {
    Disabled,
    WouldTune,
}

/// The scheduler's EqGate action.
#[derive(Clone, Copy, Debug, PartialEq, Eq, Structural)]
pub enum EqgateAction {
    Disabled,
    Hold,
    WouldDrain,
}

/// How one applied (or skipped) scheduler step ended.
#[derive(Clone, Copy, Debug, PartialEq, Eq, Structural)]
pub enum Outcome {
    Disabled,
    Blocked,
    Wait,
    Hold,
    Issued,
    Failed,
    Invalid,
    Updated,
    NoBackend,
    Applied,
    GuestMediatedRequired,
}

pub open spec fn spec_memory_action_name(a: MemoryAction) -> &'static str {
    match a {
        MemoryAction::Disabled => "disabled",
        MemoryAction::Wait => "wait",
        MemoryAction::WouldTarget => "would_target",
        MemoryAction::Hold => "hold",
    }
}

pub fn memory_action_name(a: MemoryAction) -> (r: &'static str)
    ensures
        r == spec_memory_action_name(a),
{
    match a {
        MemoryAction::Disabled => "disabled",
        MemoryAction::Wait => "wait",
        MemoryAction::WouldTarget => "would_target",
        MemoryAction::Hold => "hold",
    }
}

pub open spec fn spec_cpu_action_name(a: CpuAction) -> &'static str {
    match a {
        CpuAction::Disabled => "disabled",
        CpuAction::Hold => "hold",
        CpuAction::WouldResize => "would_resize",
    }
}

pub fn cpu_action_name(a: CpuAction) -> (r: &'static str)
    ensures
        r == spec_cpu_action_name(a),
{
    match a {
        CpuAction::Disabled => "disabled",
        CpuAction::Hold => "hold",
        CpuAction::WouldResize => "would_resize",
    }
}

pub open spec fn spec_io_action_name(a: IoAction) -> &'static str {
    match a {
        IoAction::Disabled => "disabled",
        IoAction::WouldTune => "would_tune",
    }
}

pub fn io_action_name(a: IoAction) -> (r: &'static str)
    ensures
        r == spec_io_action_name(a),
{
    match a {
        IoAction::Disabled => "disabled",
        IoAction::WouldTune => "would_tune",
    }
}

pub open spec fn spec_eqgate_action_name(a: EqgateAction) -> &'static str {
    match a {
        EqgateAction::Disabled => "disabled",
        EqgateAction::Hold => "hold",
        EqgateAction::WouldDrain => "would_drain",
    }
}

pub fn eqgate_action_name(a: EqgateAction) -> (r: &'static str)
    ensures
        r == spec_eqgate_action_name(a),
{
    match a {
        EqgateAction::Disabled => "disabled",
        EqgateAction::Hold => "hold",
        EqgateAction::WouldDrain => "would_drain",
    }
}

pub open spec fn spec_outcome_name(o: Outcome) -> &'static str {
    match o {
        Outcome::Disabled => "disabled",
        Outcome::Blocked => "blocked",
        Outcome::Wait => "wait",
        Outcome::Hold => "hold",
        Outcome::Issued => "issued",
        Outcome::Failed => "failed",
        Outcome::Invalid => "invalid",
        Outcome::Updated => "updated",
        Outcome::NoBackend => "no_backend",
        Outcome::Applied => "applied",
        Outcome::GuestMediatedRequired => "guest_mediated_required",
    }
}

pub fn outcome_name(o: Outcome) -> (r: &'static str)
    ensures
        r == spec_outcome_name(o),
{
    match o {
        Outcome::Disabled => "disabled",
        Outcome::Blocked => "blocked",
        Outcome::Wait => "wait",
        Outcome::Hold => "hold",
        Outcome::Issued => "issued",
        Outcome::Failed => "failed",
        Outcome::Invalid => "invalid",
        Outcome::Updated => "updated",
        Outcome::NoBackend => "no_backend",
        Outcome::Applied => "applied",
        Outcome::GuestMediatedRequired => "guest_mediated_required",
    }
}

/// The I/O action: tune when either goal is set.
pub open spec fn io_action(vfio_queue_goal: u16, block_io_weight: u16) -> IoAction {
    if vfio_queue_goal == 0 && block_io_weight == 0 {
        IoAction::Disabled
    } else {
        IoAction::WouldTune
    }
}

pub fn hyperalloc_scheduler_io_action(vfio_queue_goal: u16, block_io_weight: u16) -> (r: IoAction)
    ensures
        r == io_action(vfio_queue_goal, block_io_weight),
{
    if vfio_queue_goal == 0 && block_io_weight == 0 {
        IoAction::Disabled
    } else {
        IoAction::WouldTune
    }
}

/// The scheduler's memory, vCPU and I/O actions for a policy decision: a
/// waiting decision waits, an eligible one targets when the current memory
/// target differs from the scheduler's, and the vCPU count is resized when it
/// differs from the scheduler's.
pub open spec fn scheduler_actions(s: HyperAllocRuntimeSnapshot, decision: Decision) -> (
    MemoryAction,
    CpuAction,
    IoAction,
) {
    if s.scheduler_enabled == 0 {
        (MemoryAction::Disabled, CpuAction::Disabled, IoAction::Disabled)
    } else {
        let m = if decision == Decision::Wait {
            MemoryAction::Wait
        } else if decision == Decision::Eligible && s.memory_target_huge_frames
            != s.scheduler_target_huge_frames {
            MemoryAction::WouldTarget
        } else {
            MemoryAction::Hold
        };
        let c = if s.desired_vcpus == s.scheduler_desired_vcpus {
            CpuAction::Hold
        } else {
            CpuAction::WouldResize
        };
        (m, c, io_action(s.scheduler_vfio_queue_goal, s.scheduler_block_io_weight))
    }
}

pub fn hyperalloc_scheduler_actions(s: &HyperAllocRuntimeSnapshot, decision: Decision) -> (r: (
    MemoryAction,
    CpuAction,
    IoAction,
))
    ensures
        r == scheduler_actions(*s, decision),
{
    if s.scheduler_enabled == 0 {
        return (MemoryAction::Disabled, CpuAction::Disabled, IoAction::Disabled);
    }
    let m = if decision == Decision::Wait {
        MemoryAction::Wait
    } else if decision == Decision::Eligible && s.memory_target_huge_frames
        != s.scheduler_target_huge_frames {
        MemoryAction::WouldTarget
    } else {
        MemoryAction::Hold
    };
    let c = if s.desired_vcpus == s.scheduler_desired_vcpus {
        CpuAction::Hold
    } else {
        CpuAction::WouldResize
    };
    (m, c, hyperalloc_scheduler_io_action(s.scheduler_vfio_queue_goal, s.scheduler_block_io_weight))
}

pub open spec fn io_backend(has_block_backend: bool, has_vfio_backend: bool) -> &'static str {
    if !has_block_backend && !has_vfio_backend {
        "none"
    } else if has_block_backend && !has_vfio_backend {
        "block"
    } else if !has_block_backend && has_vfio_backend {
        "vfio"
    } else {
        "block+vfio"
    }
}

/// Which I/O backends the instance has, as a word.
pub fn hyperalloc_scheduler_io_backend(has_block_backend: bool, has_vfio_backend: bool) -> (r:
    &'static str)
    ensures
        r == io_backend(has_block_backend, has_vfio_backend),
{
    if !has_block_backend && !has_vfio_backend {
        "none"
    } else if has_block_backend && !has_vfio_backend {
        "block"
    } else if !has_block_backend && has_vfio_backend {
        "vfio"
    } else {
        "block+vfio"
    }
}

/// What the I/O goals achieve with the backends at hand.
pub open spec fn io_effect(
    vfio_queue_goal: u16,
    block_io_weight: u16,
    has_block_backend: bool,
    has_vfio_backend: bool,
) -> &'static str {
    let block = block_io_weight != 0;
    let vfio = vfio_queue_goal != 0;
    if !block && !vfio {
        "disabled"
    } else if block && has_block_backend && vfio && has_vfio_backend {
        "block_policy_applied_vfio_channel_pending"
    } else if block && has_block_backend && vfio {
        "block_policy_applied_vfio_no_backend"
    } else if block && has_block_backend {
        "block_policy_applied"
    } else if block && vfio && has_vfio_backend {
        "vfio_channel_pending_block_no_backend"
    } else if vfio && has_vfio_backend {
        "vfio_channel_pending"
    } else {
        "no_backend"
    }
}

pub fn hyperalloc_scheduler_io_effect(
    vfio_queue_goal: u16,
    block_io_weight: u16,
    has_block_backend: bool,
    has_vfio_backend: bool,
) -> (r: &'static str)
    ensures
        r == io_effect(vfio_queue_goal, block_io_weight, has_block_backend, has_vfio_backend),
{
    let block = block_io_weight != 0;
    let vfio = vfio_queue_goal != 0;
    if !block && !vfio {
        "disabled"
    } else if block && has_block_backend && vfio && has_vfio_backend {
        "block_policy_applied_vfio_channel_pending"
    } else if block && has_block_backend && vfio {
        "block_policy_applied_vfio_no_backend"
    } else if block && has_block_backend {
        "block_policy_applied"
    } else if block && vfio && has_vfio_backend {
        "vfio_channel_pending_block_no_backend"
    } else if vfio && has_vfio_backend {
        "vfio_channel_pending"
    } else {
        "no_backend"
    }
}

/// The EqGate action: drain when the scheduler has a budget and requests are
/// pending.
pub open spec fn eqgate_action(s: HyperAllocRuntimeSnapshot, q: HyperAllocQuery) -> EqgateAction {
    if s.scheduler_enabled == 0 || s.scheduler_eqgate_drain_budget == 0 {
        EqgateAction::Disabled
    } else if q.eqgate_hyperalloc_pending == 0 {
        EqgateAction::Hold
    } else {
        EqgateAction::WouldDrain
    }
}

pub fn hyperalloc_scheduler_eqgate_action(s: &HyperAllocRuntimeSnapshot, q: &HyperAllocQuery) -> (r:
    EqgateAction)
    ensures
        r == eqgate_action(*s, *q),
{
    if s.scheduler_enabled == 0 || s.scheduler_eqgate_drain_budget == 0 {
        EqgateAction::Disabled
    } else if q.eqgate_hyperalloc_pending == 0 {
        EqgateAction::Hold
    } else {
        EqgateAction::WouldDrain
    }
}

/// `Ord::clamp`.
pub open spec fn clamp(x: int, lo: int, hi: int) -> int {
    if x < lo {
        lo
    } else if x > hi {
        hi
    } else {
        x
    }
}

/// The adaptive memory target: the scheduler's target kept within the
/// registered frames, when any are registered.
pub open spec fn adaptive_memory_target(s: HyperAllocRuntimeSnapshot, q: HyperAllocQuery) -> u64 {
    if q.registered_frames == 0 {
        s.scheduler_target_huge_frames
    } else {
        clamp(s.scheduler_target_huge_frames as int, 1, q.registered_frames as int) as u64
    }
}

fn adaptive_memory_target_huge_frames(s: &HyperAllocRuntimeSnapshot, q: &HyperAllocQuery) -> (r: u64)
    ensures
        r == adaptive_memory_target(*s, *q),
{
    if q.registered_frames == 0 {
        return s.scheduler_target_huge_frames;
    }
    let t = s.scheduler_target_huge_frames;
    if t < 1 {
        1
    } else if t > q.registered_frames {
        q.registered_frames
    } else {
        t
    }
}

/// Work is queued somewhere in HyperAlloc.
pub open spec fn resource_backlog(q: HyperAllocQuery) -> bool {
    pagecache_outstanding(q) || q.reclaiming_frames != 0 || q.vfio_dma_outstanding != 0
        || q.guest_ram_mmap_zap_outstanding != 0 || q.eqgate_hyperalloc_pending != 0
}

pub fn hyperalloc_scheduler_resource_backlog(q: &HyperAllocQuery) -> (r: bool)
    ensures
        r == resource_backlog(*q),
{
    hyperalloc_pagecache_request_outstanding(q) || q.reclaiming_frames != 0
        || q.vfio_dma_outstanding != 0 || q.guest_ram_mmap_zap_outstanding != 0
        || q.eqgate_hyperalloc_pending != 0
}

/// The adaptive vCPU goal: every vCPU while work is queued, else the
/// scheduler's goal kept within one and the maximum.
pub open spec fn adaptive_desired(s: HyperAllocRuntimeSnapshot, q: HyperAllocQuery) -> u8 {
    let max = if s.max_vcpus >= 1 {
        s.max_vcpus
    } else {
        1u8
    };
    if resource_backlog(q) {
        max
    } else {
        clamp(s.scheduler_desired_vcpus as int, 1, max as int) as u8
    }
}

fn adaptive_desired_vcpus(s: &HyperAllocRuntimeSnapshot, q: &HyperAllocQuery) -> (r: u8)
    ensures
        r == adaptive_desired(*s, *q),
{
    let max_vcpus = if s.max_vcpus >= 1 {
        s.max_vcpus
    } else {
        1
    };
    let d = s.scheduler_desired_vcpus;
    let desired = if d < 1 {
        1
    } else if d > max_vcpus {
        max_vcpus
    } else {
        d
    };
    if hyperalloc_scheduler_resource_backlog(q) {
        max_vcpus
    } else {
        desired
    }
}

/// The adaptive VFIO queue goal: none without a VFIO backend, the current
/// goal when one is set, else the vCPU goal capped.
pub open spec fn adaptive_vfio_goal(
    s: HyperAllocRuntimeSnapshot,
    desired_vcpus: u8,
    current_goal: u16,
    adaptive_cap: u16,
) -> u16 {
    if !s.has_vfio_backend {
        0
    } else if current_goal != 0 {
        current_goal
    } else if (desired_vcpus as u16) < adaptive_cap {
        desired_vcpus as u16
    } else {
        adaptive_cap
    }
}

pub fn adaptive_vfio_queue_goal(
    s: &HyperAllocRuntimeSnapshot,
    desired_vcpus: u8,
    current_goal: u16,
    adaptive_cap: u16,
) -> (r: u16)
    ensures
        r == adaptive_vfio_goal(*s, desired_vcpus, current_goal, adaptive_cap),
{
    if !s.has_vfio_backend {
        0
    } else if current_goal != 0 {
        current_goal
    } else {
        if (desired_vcpus as u16) < adaptive_cap {
            desired_vcpus as u16
        } else {
            adaptive_cap
        }
    }
}

/// The adaptive block I/O weight: none without a block backend, the current
/// weight when one is set, else the adaptive default.
pub open spec fn adaptive_block_weight(s: HyperAllocRuntimeSnapshot) -> u16 {
    if !s.has_block_backend {
        0
    } else if s.scheduler_block_io_weight != 0 {
        s.scheduler_block_io_weight
    } else {
        HYPERALLOC_SCHEDULER_ADAPTIVE_BLOCK_IO_WEIGHT
    }
}

pub fn adaptive_block_io_weight(s: &HyperAllocRuntimeSnapshot) -> (r: u16)
    ensures
        r == adaptive_block_weight(*s),
{
    if !s.has_block_backend {
        0
    } else if s.scheduler_block_io_weight != 0 {
        s.scheduler_block_io_weight
    } else {
        HYPERALLOC_SCHEDULER_ADAPTIVE_BLOCK_IO_WEIGHT
    }
}

/// The adaptive EqGate budget: unchanged with nothing pending, else the
/// pending count capped at the adaptive budget.
pub open spec fn adaptive_eqgate_budget(s: HyperAllocRuntimeSnapshot, q: HyperAllocQuery) -> u32 {
    if q.eqgate_hyperalloc_pending == 0 {
        s.scheduler_eqgate_drain_budget
    } else if q.eqgate_hyperalloc_pending < HYPERALLOC_SCHEDULER_ADAPTIVE_EQGATE_DRAIN_BUDGET {
        q.eqgate_hyperalloc_pending as u32
    } else {
        HYPERALLOC_SCHEDULER_ADAPTIVE_EQGATE_DRAIN_BUDGET
    }
}

fn adaptive_eqgate_drain_budget(s: &HyperAllocRuntimeSnapshot, q: &HyperAllocQuery) -> (r: u32)
    ensures
        r == adaptive_eqgate_budget(*s, *q),
{
    if q.eqgate_hyperalloc_pending == 0 {
        return s.scheduler_eqgate_drain_budget;
    }
    if q.eqgate_hyperalloc_pending < HYPERALLOC_SCHEDULER_ADAPTIVE_EQGATE_DRAIN_BUDGET as u64 {
        q.eqgate_hyperalloc_pending as u32
    } else {
        HYPERALLOC_SCHEDULER_ADAPTIVE_EQGATE_DRAIN_BUDGET
    }
}

/// Goals before and after an adaptive update.
#[derive(Clone, Copy, Debug)]
pub struct HyperAllocSchedulerAdaptResult {
    pub result: Outcome,
    pub target_before: u64,
    pub target_after: u64,
    pub desired_before: u8,
    pub desired_after: u8,
    pub vfio_queue_before: u16,
    pub vfio_queue_after: u16,
    pub block_weight_before: u16,
    pub block_weight_after: u16,
    pub eqgate_budget_before: u32,
    pub eqgate_budget_after: u32,
}

/// An adaptive result that changes nothing: before and after are the
/// snapshot's goals.
pub open spec fn adapt_unchanged(result: Outcome, s: HyperAllocRuntimeSnapshot) -> HyperAllocSchedulerAdaptResult {
    HyperAllocSchedulerAdaptResult {
        result,
        target_before: s.scheduler_target_huge_frames,
        target_after: s.scheduler_target_huge_frames,
        desired_before: s.scheduler_desired_vcpus,
        desired_after: s.scheduler_desired_vcpus,
        vfio_queue_before: s.scheduler_vfio_queue_goal,
        vfio_queue_after: s.scheduler_vfio_queue_goal,
        block_weight_before: s.scheduler_block_io_weight,
        block_weight_after: s.scheduler_block_io_weight,
        eqgate_budget_before: s.scheduler_eqgate_drain_budget,
        eqgate_budget_after: s.scheduler_eqgate_drain_budget,
    }
}

impl HyperAllocSchedulerAdaptResult {
    pub fn from_snapshot(result: Outcome, s: &HyperAllocRuntimeSnapshot) -> (r: Self)
        ensures
            r == adapt_unchanged(result, *s),
    {
        HyperAllocSchedulerAdaptResult {
            result,
            target_before: s.scheduler_target_huge_frames,
            target_after: s.scheduler_target_huge_frames,
            desired_before: s.scheduler_desired_vcpus,
            desired_after: s.scheduler_desired_vcpus,
            vfio_queue_before: s.scheduler_vfio_queue_goal,
            vfio_queue_after: s.scheduler_vfio_queue_goal,
            block_weight_before: s.scheduler_block_io_weight,
            block_weight_after: s.scheduler_block_io_weight,
            eqgate_budget_before: s.scheduler_eqgate_drain_budget,
            eqgate_budget_after: s.scheduler_eqgate_drain_budget,
        }
    }
}

/// The adaptive update of the scheduler's goals from a snapshot and a query:
/// nothing when adaptation is off in the snapshot or in the scheduler;
/// otherwise the goals become the adaptive ones and the result says whether
/// any changed.
pub open spec fn adapt(st: ControlState, s: HyperAllocRuntimeSnapshot, q: HyperAllocQuery) -> (
    ControlState,
    HyperAllocSchedulerAdaptResult,
) {
    if s.scheduler_enabled == 0 || s.scheduler_adaptive == 0 || st.scheduler is None
        || !st.scheduler->0.adaptive {
        (st, adapt_unchanged(Outcome::Disabled, s))
    } else {
        let sc = st.scheduler->0;
        let target_after = adaptive_memory_target(s, q);
        let desired_after = adaptive_desired(s, q);
        let block_after = adaptive_block_weight(s);
        let budget_after = adaptive_eqgate_budget(s, q);
        let vfio_after = adaptive_vfio_goal(
            s,
            desired_after,
            sc.vfio_queue_goal,
            sc.adaptive_vfio_queue_cap,
        );
        let changed = sc.target_huge_frames != target_after || sc.desired_vcpus != desired_after
            || sc.vfio_queue_goal != vfio_after || sc.block_io_weight != block_after
            || sc.eqgate_drain_budget != budget_after;
        let r = HyperAllocSchedulerAdaptResult {
            result: if changed {
                Outcome::Updated
            } else {
                Outcome::Hold
            },
            target_before: sc.target_huge_frames,
            target_after,
            desired_before: sc.desired_vcpus,
            desired_after,
            vfio_queue_before: sc.vfio_queue_goal,
            vfio_queue_after: vfio_after,
            block_weight_before: sc.block_io_weight,
            block_weight_after: block_after,
            eqgate_budget_before: sc.eqgate_drain_budget,
            eqgate_budget_after: budget_after,
        };
        let new_sc = HyperAllocSchedulerDryRun {
            target_huge_frames: target_after,
            desired_vcpus: desired_after,
            vfio_queue_goal: vfio_after,
            block_io_weight: block_after,
            eqgate_drain_budget: budget_after,
            ..sc
        };
        (ControlState { scheduler: Some(new_sc), ..st }, r)
    }
}

/// While HyperAlloc has work queued (a page-cache shrink outstanding,
/// frames being reclaimed, VFIO DMA or guest-RAM zap requests outstanding,
/// or EqGate requests pending), an adaptive scheduler wants every vCPU: its
/// vCPU goal becomes `max(max_vcpus, 1)`, in the result and in the state.
pub proof fn lemma_backlog_wants_every_vcpu(st: ControlState, s: HyperAllocRuntimeSnapshot, q: HyperAllocQuery)
    requires
        s.scheduler_enabled != 0,
        s.scheduler_adaptive != 0,
        st.scheduler matches Some(sc) && sc.adaptive,
        q.pagecache_shrink_pending_requests > q.pagecache_shrink_completed_requests
            + q.pagecache_shrink_failed_requests || q.reclaiming_frames != 0 || q.vfio_dma_outstanding != 0
            || q.guest_ram_mmap_zap_outstanding != 0 || q.eqgate_hyperalloc_pending != 0,
    ensures
        adapt(st, s, q).1.desired_after == (if s.max_vcpus >= 1 { s.max_vcpus } else { 1u8 }),
        adapt(st, s, q).0.scheduler matches Some(n) && n.desired_vcpus == adapt(st, s, q).1.desired_after,
{
}

/// With nothing queued, an adaptive scheduler keeps its own vCPU goal when
/// it lies in `1..=max(max_vcpus, 1)`, and otherwise moves it to the nearest
/// end of that range.
pub proof fn lemma_idle_keeps_vcpu_goal(st: ControlState, s: HyperAllocRuntimeSnapshot, q: HyperAllocQuery)
    requires
        s.scheduler_enabled != 0,
        s.scheduler_adaptive != 0,
        st.scheduler matches Some(sc) && sc.adaptive,
        q.pagecache_shrink_pending_requests <= q.pagecache_shrink_completed_requests
            + q.pagecache_shrink_failed_requests,
        q.reclaiming_frames == 0,
        q.vfio_dma_outstanding == 0,
        q.guest_ram_mmap_zap_outstanding == 0,
        q.eqgate_hyperalloc_pending == 0,
    ensures
        ({
            let max: int = if s.max_vcpus >= 1 { s.max_vcpus as int } else { 1 };
            let d = adapt(st, s, q).1.desired_after as int;
            &&& 1 <= d <= max
            &&& 1 <= s.scheduler_desired_vcpus <= max ==> d == s.scheduler_desired_vcpus
            &&& s.scheduler_desired_vcpus < 1 ==> d == 1
            &&& s.scheduler_desired_vcpus > max ==> d == max
        }),
{
}

/// Applies the adaptive update to the scheduler's goals.
pub fn maybe_adapt_hyperalloc_scheduler_goals(
    st: &mut ControlState,
    s: &HyperAllocRuntimeSnapshot,
    q: &HyperAllocQuery,
) -> (r: HyperAllocSchedulerAdaptResult)
    ensures
        (*final(st), r) == adapt(*old(st), *s, *q),
{
    if s.scheduler_enabled == 0 || s.scheduler_adaptive == 0 {
        return HyperAllocSchedulerAdaptResult::from_snapshot(Outcome::Disabled, s);
    }
    let target_after = adaptive_memory_target_huge_frames(s, q);
    let desired_after = adaptive_desired_vcpus(s, q);
    let block_after = adaptive_block_io_weight(s);
    let budget_after = adaptive_eqgate_drain_budget(s, q);
    match st.scheduler {
        None => HyperAllocSchedulerAdaptResult::from_snapshot(Outcome::Disabled, s),
        Some(sc) => {
            if !sc.adaptive {
                return HyperAllocSchedulerAdaptResult::from_snapshot(Outcome::Disabled, s);
            }
            let vfio_after = adaptive_vfio_queue_goal(
                s,
                desired_after,
                sc.vfio_queue_goal,
                sc.adaptive_vfio_queue_cap,
            );
            let changed = sc.target_huge_frames != target_after || sc.desired_vcpus
                != desired_after || sc.vfio_queue_goal != vfio_after || sc.block_io_weight
                != block_after || sc.eqgate_drain_budget != budget_after;
            let r = HyperAllocSchedulerAdaptResult {
                result: if changed {
                    Outcome::Updated
                } else {
                    Outcome::Hold
                },
                target_before: sc.target_huge_frames,
                target_after,
                desired_before: sc.desired_vcpus,
                desired_after,
                vfio_queue_before: sc.vfio_queue_goal,
                vfio_queue_after: vfio_after,
                block_weight_before: sc.block_io_weight,
                block_weight_after: block_after,
                eqgate_budget_before: sc.eqgate_drain_budget,
                eqgate_budget_after: budget_after,
            };
            st.scheduler = Some(
                HyperAllocSchedulerDryRun {
                    target_huge_frames: target_after,
                    desired_vcpus: desired_after,
                    vfio_queue_goal: vfio_after,
                    block_io_weight: block_after,
                    eqgate_drain_budget: budget_after,
                    ..sc
                },
            );
            r
        },
    }
}

/// What the hypervisor answers to a memory target.
#[derive(Clone, Copy, Debug)]
pub struct MemoryTargetReply {
    pub sequence: u64,
    pub status: u32,
    pub target_pages: u64,
    pub timeout_ms: u64,
}

/// What the hypervisor answers to an EqGate drain.
#[derive(Clone, Copy, Debug)]
pub struct EqGateDrainReply {
    pub instance_id: u64,
    pub flags: u32,
    pub max_requests: u32,
    pub visited_pcpus: u64,
    pub pending_before: u64,
    pub drained: u64,
    pub installed: u64,
    pub unsupported: u64,
    pub failed: u64,
    pub pending_after: u64,
    pub last_sequence: u64,
    pub result_errno: i32,
    pub skipped: u64,
    pub blocked_by_other_instance: u64,
}

/// The memory step of a scheduler tick with automatic apply.
#[derive(Clone, Copy, Debug)]
pub struct HyperAllocSchedulerAutoApplyResult {
    pub result: Outcome,
    pub sequence: u64,
    pub status: u32,
    pub target_pages: u64,
    pub timeout_ms: u64,
}

impl HyperAllocSchedulerAutoApplyResult {
    pub fn zero(result: Outcome) -> (r: Self)
        ensures
            r == (HyperAllocSchedulerAutoApplyResult {
                result,
                sequence: 0,
                status: 0,
                target_pages: 0,
                timeout_ms: 0,
            }),
    {
        HyperAllocSchedulerAutoApplyResult {
            result,
            sequence: 0,
            status: 0,
            target_pages: 0,
            timeout_ms: 0,
        }
    }
}

/// The memory step of an explicit apply-all.
#[derive(Clone, Copy, Debug)]
pub struct HyperAllocSchedulerMemoryApplyResult {
    pub result: Outcome,
    pub sequence: u64,
    pub status: u32,
    pub target_pages: u64,
    pub timeout_ms: u64,
}

impl HyperAllocSchedulerMemoryApplyResult {
    pub fn zero(result: Outcome) -> (r: Self)
        ensures
            r == (HyperAllocSchedulerMemoryApplyResult {
                result,
                sequence: 0,
                status: 0,
                target_pages: 0,
                timeout_ms: 0,
            }),
    {
        HyperAllocSchedulerMemoryApplyResult {
            result,
            sequence: 0,
            status: 0,
            target_pages: 0,
            timeout_ms: 0,
        }
    }
}

/// The vCPU step of a scheduler tick with automatic apply.
#[derive(Clone, Copy, Debug)]
pub struct HyperAllocSchedulerCpuAutoApplyResult {
    pub result: Outcome,
    pub desired_before: u8,
    pub desired_after: u8,
    pub max_vcpus: u8,
}

impl HyperAllocSchedulerCpuAutoApplyResult {
    pub fn new(result: Outcome, desired_before: u8, desired_after: u8, max_vcpus: u8) -> (r: Self)
        ensures
            r == (HyperAllocSchedulerCpuAutoApplyResult {
                result,
                desired_before,
                desired_after,
                max_vcpus,
            }),
    {
        HyperAllocSchedulerCpuAutoApplyResult { result, desired_before, desired_after, max_vcpus }
    }
}

/// The vCPU step of an explicit apply-all.
#[derive(Clone, Copy, Debug)]
pub struct HyperAllocSchedulerCpuApplyResult {
    pub result: Outcome,
    pub desired_before: u8,
    pub desired_after: u8,
    pub max_vcpus: u8,
}

impl HyperAllocSchedulerCpuApplyResult {
    pub fn new(result: Outcome, desired_before: u8, desired_after: u8, max_vcpus: u8) -> (r: Self)
        ensures
            r == (HyperAllocSchedulerCpuApplyResult {
                result,
                desired_before,
                desired_after,
                max_vcpus,
            }),
    {
        HyperAllocSchedulerCpuApplyResult { result, desired_before, desired_after, max_vcpus }
    }
}

/// The I/O step: what happened to the block policy and to the VFIO channel.
#[derive(Clone, Copy, Debug)]
pub struct HyperAllocSchedulerIoApplyResult {
    pub block_policy_result: Outcome,
    pub vfio_channel_result: Outcome,
}

/// The EqGate step of a scheduler tick or an apply-all.
#[derive(Clone, Copy, Debug)]
pub struct HyperAllocSchedulerEqGateAutoDrainResult {
    pub result: Outcome,
    pub flags: u32,
    pub max_requests: u32,
    pub visited_pcpus: u64,
    pub pending_before: u64,
    pub drained: u64,
    pub installed: u64,
    pub unsupported: u64,
    pub failed: u64,
    pub pending_after: u64,
    pub last_sequence: u64,
    pub skipped: u64,
    pub blocked_by_other_instance: u64,
}

pub open spec fn eqgate_zero(result: Outcome) -> HyperAllocSchedulerEqGateAutoDrainResult {
    HyperAllocSchedulerEqGateAutoDrainResult {
        result,
        flags: 0,
        max_requests: 0,
        visited_pcpus: 0,
        pending_before: 0,
        drained: 0,
        installed: 0,
        unsupported: 0,
        failed: 0,
        pending_after: 0,
        last_sequence: 0,
        skipped: 0,
        blocked_by_other_instance: 0,
    }
}

/// An issued drain, reporting what the hypervisor answered.
pub open spec fn eqgate_issued(r: EqGateDrainReply) -> HyperAllocSchedulerEqGateAutoDrainResult {
    HyperAllocSchedulerEqGateAutoDrainResult {
        result: Outcome::Issued,
        flags: r.flags,
        max_requests: r.max_requests,
        visited_pcpus: r.visited_pcpus,
        pending_before: r.pending_before,
        drained: r.drained,
        installed: r.installed,
        unsupported: r.unsupported,
        failed: r.failed,
        pending_after: r.pending_after,
        last_sequence: r.last_sequence,
        skipped: r.skipped,
        blocked_by_other_instance: r.blocked_by_other_instance,
    }
}

impl HyperAllocSchedulerEqGateAutoDrainResult {
    pub fn zero(result: Outcome) -> (r: Self)
        ensures
            r == eqgate_zero(result),
    {
        HyperAllocSchedulerEqGateAutoDrainResult {
            result,
            flags: 0,
            max_requests: 0,
            visited_pcpus: 0,
            pending_before: 0,
            drained: 0,
            installed: 0,
            unsupported: 0,
            failed: 0,
            pending_after: 0,
            last_sequence: 0,
            skipped: 0,
            blocked_by_other_instance: 0,
        }
    }

    pub fn issued(r: &EqGateDrainReply) -> (res: Self)
        ensures
            res == eqgate_issued(*r),
    {
        HyperAllocSchedulerEqGateAutoDrainResult {
            result: Outcome::Issued,
            flags: r.flags,
            max_requests: r.max_requests,
            visited_pcpus: r.visited_pcpus,
            pending_before: r.pending_before,
            drained: r.drained,
            installed: r.installed,
            unsupported: r.unsupported,
            failed: r.failed,
            pending_after: r.pending_after,
            last_sequence: r.last_sequence,
            skipped: r.skipped,
            blocked_by_other_instance: r.blocked_by_other_instance,
        }
    }
}

/// A step that is either skipped, with the outcome to report, or issued with
/// an argument for the hypervisor.
#[derive(Clone, Copy, Debug, PartialEq, Eq, Structural)]
pub enum Plan<T> {
    Skip(Outcome),
    Issue(T),
}

/// The memory step of a tick with automatic apply: skipped unless automatic
/// apply is on, the host policy is off, the target is nonzero, nothing blocks
/// reclaim and the action is to target.
pub open spec fn auto_memory_plan(s: HyperAllocRuntimeSnapshot, reason: Reason, m: MemoryAction) -> Plan<u64> {
    if s.scheduler_enabled == 0 || s.scheduler_auto_apply == 0 {
        Plan::Skip(Outcome::Disabled)
    } else if s.policy_enabled != 0 || s.scheduler_target_huge_frames == 0 {
        Plan::Skip(Outcome::Blocked)
    } else if m == MemoryAction::Wait {
        Plan::Skip(Outcome::Wait)
    } else if reason == Reason::VfioBlocked || reason == Reason::MmapStale {
        Plan::Skip(Outcome::Blocked)
    } else if m != MemoryAction::WouldTarget {
        Plan::Skip(Outcome::Hold)
    } else {
        Plan::Issue(s.scheduler_target_huge_frames)
    }
}

pub fn auto_apply_memory_plan(s: &HyperAllocRuntimeSnapshot, reason: Reason, m: MemoryAction) -> (r:
    Plan<u64>)
    ensures
        r == auto_memory_plan(*s, reason, m),
{
    if s.scheduler_enabled == 0 || s.scheduler_auto_apply == 0 {
        Plan::Skip(Outcome::Disabled)
    } else if s.policy_enabled != 0 || s.scheduler_target_huge_frames == 0 {
        Plan::Skip(Outcome::Blocked)
    } else if m == MemoryAction::Wait {
        Plan::Skip(Outcome::Wait)
    } else if reason == Reason::VfioBlocked || reason == Reason::MmapStale {
        Plan::Skip(Outcome::Blocked)
    } else if m != MemoryAction::WouldTarget {
        Plan::Skip(Outcome::Hold)
    } else {
        Plan::Issue(s.scheduler_target_huge_frames)
    }
}

/// The memory step of an apply-all: blocked reclaim first, then waiting, then
/// the action decides.
pub open spec fn apply_all_memory_plan(s: HyperAllocRuntimeSnapshot, reason: Reason, m: MemoryAction) -> Plan<u64> {
    if reason == Reason::VfioBlocked || reason == Reason::MmapStale {
        Plan::Skip(Outcome::Blocked)
    } else if m == MemoryAction::Wait {
        Plan::Skip(Outcome::Wait)
    } else if m != MemoryAction::WouldTarget {
        Plan::Skip(Outcome::Hold)
    } else {
        Plan::Issue(s.scheduler_target_huge_frames)
    }
}

pub fn apply_hyperalloc_scheduler_memory_plan(
    s: &HyperAllocRuntimeSnapshot,
    reason: Reason,
    m: MemoryAction,
) -> (r: Plan<u64>)
    ensures
        r == apply_all_memory_plan(*s, reason, m),
{
    if reason == Reason::VfioBlocked || reason == Reason::MmapStale {
        Plan::Skip(Outcome::Blocked)
    } else if m == MemoryAction::Wait {
        Plan::Skip(Outcome::Wait)
    } else if m != MemoryAction::WouldTarget {
        Plan::Skip(Outcome::Hold)
    } else {
        Plan::Issue(s.scheduler_target_huge_frames)
    }
}

/// A vCPU count the instance accepts: between one and the maximum.
pub open spec fn vcpus_valid(count: u8, max_vcpus: u8) -> bool {
    count != 0 && count <= max_vcpus
}

/// The vCPU step of a tick with automatic apply.
pub open spec fn auto_cpu_plan(s: HyperAllocRuntimeSnapshot, c: CpuAction) -> Plan<u8> {
    if s.scheduler_enabled == 0 || s.scheduler_cpu_auto_apply == 0 {
        Plan::Skip(Outcome::Disabled)
    } else if !vcpus_valid(s.scheduler_desired_vcpus, s.max_vcpus) {
        Plan::Skip(Outcome::Invalid)
    } else if c != CpuAction::WouldResize {
        Plan::Skip(Outcome::Hold)
    } else {
        Plan::Issue(s.scheduler_desired_vcpus)
    }
}

pub fn auto_apply_cpu_plan(s: &HyperAllocRuntimeSnapshot, c: CpuAction) -> (r: Plan<u8>)
    ensures
        r == auto_cpu_plan(*s, c),
{
    if s.scheduler_enabled == 0 || s.scheduler_cpu_auto_apply == 0 {
        Plan::Skip(Outcome::Disabled)
    } else if s.scheduler_desired_vcpus == 0 || s.scheduler_desired_vcpus > s.max_vcpus {
        Plan::Skip(Outcome::Invalid)
    } else if c != CpuAction::WouldResize {
        Plan::Skip(Outcome::Hold)
    } else {
        Plan::Issue(s.scheduler_desired_vcpus)
    }
}

/// The EqGate step of a tick with automatic drain.
pub open spec fn auto_eqgate_plan(s: HyperAllocRuntimeSnapshot, q: HyperAllocQuery) -> Plan<u32> {
    if s.scheduler_enabled == 0 || s.scheduler_eqgate_auto_drain == 0 {
        Plan::Skip(Outcome::Disabled)
    } else if s.scheduler_eqgate_drain_budget == 0 {
        Plan::Skip(Outcome::Blocked)
    } else if q.eqgate_hyperalloc_pending == 0 {
        Plan::Skip(Outcome::Hold)
    } else {
        Plan::Issue(s.scheduler_eqgate_drain_budget)
    }
}

pub fn auto_drain_eqgate_plan(s: &HyperAllocRuntimeSnapshot, q: &HyperAllocQuery) -> (r: Plan<u32>)
    ensures
        r == auto_eqgate_plan(*s, *q),
{
    if s.scheduler_enabled == 0 || s.scheduler_eqgate_auto_drain == 0 {
        Plan::Skip(Outcome::Disabled)
    } else if s.scheduler_eqgate_drain_budget == 0 {
        Plan::Skip(Outcome::Blocked)
    } else if q.eqgate_hyperalloc_pending == 0 {
        Plan::Skip(Outcome::Hold)
    } else {
        Plan::Issue(s.scheduler_eqgate_drain_budget)
    }
}

/// The EqGate step of an apply-all.
pub open spec fn apply_all_eqgate_plan(s: HyperAllocRuntimeSnapshot, q: HyperAllocQuery) -> Plan<u32> {
    if s.scheduler_eqgate_drain_budget == 0 {
        Plan::Skip(Outcome::Disabled)
    } else if q.eqgate_hyperalloc_pending == 0 {
        Plan::Skip(Outcome::Hold)
    } else {
        Plan::Issue(s.scheduler_eqgate_drain_budget)
    }
}

pub fn apply_hyperalloc_scheduler_eqgate_plan(s: &HyperAllocRuntimeSnapshot, q: &HyperAllocQuery) -> (r:
    Plan<u32>)
    ensures
        r == apply_all_eqgate_plan(*s, *q),
{
    if s.scheduler_eqgate_drain_budget == 0 {
        Plan::Skip(Outcome::Disabled)
    } else if q.eqgate_hyperalloc_pending == 0 {
        Plan::Skip(Outcome::Hold)
    } else {
        Plan::Issue(s.scheduler_eqgate_drain_budget)
    }
}

/// The block policy: without a block backend nothing is applied; with one
/// the scheduler's weight is handed to it.
pub open spec fn block_policy(s: HyperAllocRuntimeSnapshot) -> (Outcome, Option<u16>) {
    if !s.has_block_backend {
        if s.scheduler_block_io_weight == 0 {
            (Outcome::Disabled, None)
        } else {
            (Outcome::NoBackend, None)
        }
    } else if s.scheduler_block_io_weight == 0 {
        (Outcome::Disabled, Some(0u16))
    } else {
        (Outcome::Applied, Some(s.scheduler_block_io_weight))
    }
}

/// The block policy outcome and the weight to hand the block backend, if any.
pub fn apply_hyperalloc_scheduler_block_io_policy(s: &HyperAllocRuntimeSnapshot) -> (r: (
    Outcome,
    Option<u16>,
))
    ensures
        r == block_policy(*s),
{
    if !s.has_block_backend {
        if s.scheduler_block_io_weight == 0 {
            return (Outcome::Disabled, None);
        }
        return (Outcome::NoBackend, None);
    }
    if s.scheduler_block_io_weight == 0 {
        (Outcome::Disabled, Some(0))
    } else {
        (Outcome::Applied, Some(s.scheduler_block_io_weight))
    }
}

/// The VFIO channel: a queue goal needs the guest's cooperation when there is
/// a VFIO backend.
pub open spec fn vfio_channel(s: HyperAllocRuntimeSnapshot) -> Outcome {
    if s.scheduler_vfio_queue_goal == 0 {
        Outcome::Disabled
    } else if s.has_vfio_backend {
        Outcome::GuestMediatedRequired
    } else {
        Outcome::NoBackend
    }
}

pub fn hyperalloc_scheduler_vfio_channel_result(s: &HyperAllocRuntimeSnapshot) -> (r: Outcome)
    ensures
        r == vfio_channel(*s),
{
    if s.scheduler_vfio_queue_goal == 0 {
        Outcome::Disabled
    } else if s.has_vfio_backend {
        Outcome::GuestMediatedRequired
    } else {
        Outcome::NoBackend
    }
}

/// The I/O step of a tick: nothing when the scheduler or its I/O action is
/// off, else the block policy and the VFIO channel.
pub open spec fn io_apply(s: HyperAllocRuntimeSnapshot, a: IoAction) -> (
    HyperAllocSchedulerIoApplyResult,
    Option<u16>,
) {
    if s.scheduler_enabled == 0 || a == IoAction::Disabled {
        (
            HyperAllocSchedulerIoApplyResult {
                block_policy_result: Outcome::Disabled,
                vfio_channel_result: Outcome::Disabled,
            },
            None,
        )
    } else {
        (
            HyperAllocSchedulerIoApplyResult {
                block_policy_result: block_policy(s).0,
                vfio_channel_result: vfio_channel(s),
            },
            block_policy(s).1,
        )
    }
}

/// The I/O step of a tick and the block weight to hand the block backend.
pub fn maybe_apply_hyperalloc_scheduler_io(s: &HyperAllocRuntimeSnapshot, a: IoAction) -> (r: (
    HyperAllocSchedulerIoApplyResult,
    Option<u16>,
))
    ensures
        r == io_apply(*s, a),
{
    if s.scheduler_enabled == 0 || a == IoAction::Disabled {
        return (
            HyperAllocSchedulerIoApplyResult {
                block_policy_result: Outcome::Disabled,
                vfio_channel_result: Outcome::Disabled,
            },
            None,
        );
    }
    let (block, weight) = apply_hyperalloc_scheduler_block_io_policy(s);
    (
        HyperAllocSchedulerIoApplyResult {
            block_policy_result: block,
            vfio_channel_result: hyperalloc_scheduler_vfio_channel_result(s),
        },
        weight,
    )
}

} // verus!
