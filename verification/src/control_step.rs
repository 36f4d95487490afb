//! The steps of a control request. A request is parsed and either answered
//! at once or turned into a call on the hypervisor instance; each reply
//! resumes the request until it is answered.
use vstd::prelude::*;
use crate::command::{ControlCommand, parse_command, parse_control_command, str_string};
use crate::control::{
    result_view, policy_after_set, metrics_after_set, evaluator_after_set, scheduler_after_set,
    io_after_set, switch_after_set, SchedulerSwitch, text_nums, desired_vcpus_check,
    set_hyperalloc_policy, set_hyperalloc_metrics, set_hyperalloc_policy_evaluator,
    set_hyperalloc_scheduler, set_hyperalloc_scheduler_io, set_hyperalloc_scheduler_auto_apply,
    set_hyperalloc_scheduler_memory_auto_apply, set_hyperalloc_scheduler_cpu_auto_apply,
    set_hyperalloc_scheduler_eqgate_auto_drain, set_hyperalloc_scheduler_adaptive,
    format_hyperalloc_scheduler_status, format_hyperalloc_policy_status,
    validate_scheduler_desired_vcpus, ControlEnv, initial_state,
};
use crate::control_report::{
    DebugReclaimReply, MmapZapReply, EqgateEnqueueReply, VfioDmaReply, vcpu_text, stop_text,
    memory_target_text, cpu_apply_fields, scheduler_apply_fields, scheduler_apply_all_fields,
    policy_set_fields, metrics_set_fields, eval_set_fields, scheduler_set_fields,
    scheduler_status_fields, scheduler_io_set_fields, scheduler_auto_set_fields,
    scheduler_eqgate_auto_set_fields, scheduler_adaptive_set_fields, policy_status_fields,
    debug_reclaim_fields, vma_zap_fields, eqgate_enqueue_fields, eqgate_drain_fields,
    drain_once_fields, vfio_dma_fields, format_vcpu_response, format_stop_response,
    format_memory_target_response, format_cpu_apply_response, format_scheduler_apply_response,
    format_scheduler_apply_all_response, format_debug_reclaim_response, format_vma_zap_response,
    format_eqgate_enqueue_response, format_eqgate_drain_response, format_drain_once_response,
    format_vfio_dma_debug_response, format_vfio_dma_complete_response,
};
use crate::hyperalloc::{
    HyperAllocQuery, Decision, Reason, policy_eval, hyperalloc_policy_eval, status_fields,
    policy_eval_fields, format_hyperalloc_status, format_hyperalloc_policy_eval,
    EQGATE_DRAIN_FLAG_EXECUTE,
};
use crate::report::fields_text;
use crate::scheduler::{
    ControlState, HyperAllocRuntimeSnapshot, MemoryAction, CpuAction, IoAction, Outcome, Plan,
    MemoryTargetReply, EqGateDrainReply, snapshot, hyperalloc_runtime_snapshot,
    scheduler_actions, hyperalloc_scheduler_actions, spec_memory_action_name,
    memory_action_name, apply_all_memory_plan, apply_hyperalloc_scheduler_memory_plan,
    block_policy, apply_hyperalloc_scheduler_block_io_policy, vfio_channel,
    hyperalloc_scheduler_vfio_channel_result, apply_all_eqgate_plan,
    apply_hyperalloc_scheduler_eqgate_plan, eqgate_zero, eqgate_issued,
    HyperAllocSchedulerMemoryApplyResult, HyperAllocSchedulerCpuApplyResult,
    HyperAllocSchedulerEqGateAutoDrainResult, HYPERALLOC_MEMORY_TARGET_TIMEOUT_MS,
    HYPERALLOC_POLICY_MIN_INTERVAL_MS, HYPERALLOC_METRICS_MIN_INTERVAL_MS, HYPERALLOC_EVAL_MIN_INTERVAL_MS,
    HYPERALLOC_SCHEDULER_MIN_INTERVAL_MS, HYPERALLOC_SCHEDULER_MAX_VFIO_QUEUE_GOAL,
    HYPERALLOC_SCHEDULER_MAX_BLOCK_IO_WEIGHT,
};
use crate::scheduler_report::{snapshot_line, format_hyperalloc_scheduler_snapshot};
use crate::text::words;

verus! {

/// A call on the hypervisor instance.
#[derive(Clone, Copy, Debug, PartialEq, Eq, Structural)]
pub enum InstanceCall {
    /// Read the HyperAlloc state.
    Query,
    /// Ask the guest to give back memory down to a target.
    MemoryTarget { target_huge_frames: u64, timeout_ms: u64 },
    /// Change the number of running vCPUs.
    SetVcpuCount { count: u8 },
    /// Stop the instance.
    Stop,
    VfioDmaDebug { op: u32, frame_gpa: u64, frame_hpa: u64, iova: u64, size: u64 },
    VfioDmaComplete {
        sequence: u64,
        op: u32,
        status: u32,
        frame_gpa: u64,
        frame_hpa: u64,
        iova: u64,
        size: u64,
    },
    DebugReclaim { zone_id: u32, frame_gpa: u64, frame_len: u64, flags: u32 },
    MmapZap { gpa: u64, len: u64 },
    EqgateEnqueue { vcpu_id: u32, zone_id: u32, frame_gpa: u64, frame_len: u64, entry_flags: u64 },
    EqgateDrain { max_requests: u32, flags: u32 },
}

/// What the instance answered to a call.
#[derive(Clone, Copy, Debug)]
pub enum InstanceReply {
    Query(HyperAllocQuery),
    MemoryTarget(MemoryTargetReply),
    VcpuCountSet,
    /// The number of physical CPUs that were told to stop.
    Stopped(u64),
    VfioDma(VfioDmaReply),
    DebugReclaim(DebugReclaimReply),
    MmapZap(MmapZapReply),
    EqgateEnqueue(EqgateEnqueueReply),
    EqgateDrain(EqGateDrainReply),
}

/// What a request does with the reply to its call.
#[derive(Clone, Copy, Debug)]
pub enum Pending {
    Resize { count: u8 },
    Stop,
    HyperAllocStatus,
    Eval { target_huge_frames: u64 },
    Snapshot { s: HyperAllocRuntimeSnapshot },
    MemoryTarget { target_huge_frames: u64 },
    ApplyOnceQuery { s: HyperAllocRuntimeSnapshot },
    ApplyOnceIssue { s: HyperAllocRuntimeSnapshot, q: HyperAllocQuery },
    ApplyAllQuery { s: HyperAllocRuntimeSnapshot },
    ApplyAllMemory { s: HyperAllocRuntimeSnapshot, q: HyperAllocQuery },
    ApplyAllCpu { s: HyperAllocRuntimeSnapshot, q: HyperAllocQuery, mem: HyperAllocSchedulerMemoryApplyResult },
    ApplyAllEqgate {
        s: HyperAllocRuntimeSnapshot,
        q: HyperAllocQuery,
        mem: HyperAllocSchedulerMemoryApplyResult,
        cpu: HyperAllocSchedulerCpuApplyResult,
        block: Outcome,
        vfio: Outcome,
    },
    CpuApply { s: HyperAllocRuntimeSnapshot },
    DrainOnce { execute: bool, budget: u32 },
    Drain,
    VfioDmaDebug,
    VfioDmaComplete,
    DebugReclaim,
    MmapZap,
    EqgateEnqueue,
}

/// The call that a pending request waits on, by its kind of reply.
pub open spec fn pending_fits(p: Pending, r: InstanceReply) -> bool {
    match p {
        Pending::Resize { .. } | Pending::ApplyAllCpu { .. } | Pending::CpuApply { .. } => r is VcpuCountSet,
        Pending::Stop => r is Stopped,
        Pending::HyperAllocStatus | Pending::Eval { .. } | Pending::Snapshot { .. }
        | Pending::ApplyOnceQuery { .. } | Pending::ApplyAllQuery { .. } => r is Query,
        Pending::MemoryTarget { .. } | Pending::ApplyOnceIssue { .. }
        | Pending::ApplyAllMemory { .. } => r is MemoryTarget,
        Pending::ApplyAllEqgate { .. } | Pending::DrainOnce { .. } | Pending::Drain => r is EqgateDrain,
        Pending::VfioDmaDebug | Pending::VfioDmaComplete => r is VfioDma,
        Pending::DebugReclaim => r is DebugReclaim,
        Pending::MmapZap => r is MmapZap,
        Pending::EqgateEnqueue => r is EqgateEnqueue,
    }
}

/// The next step of a request: answered, or waiting on a call.
pub enum ControlStep {
    Done(Result<String, String>),
    Call(InstanceCall, Pending),
}

/// A step with its answer as characters.
pub enum StepView {
    Done(Result<Seq<char>, Seq<char>>),
    Call(InstanceCall, Pending),
}

/// An answer as characters.
pub open spec fn text_result(r: &Result<String, String>) -> Result<Seq<char>, Seq<char>> {
    match r {
        Ok(t) => Ok(t@),
        Err(m) => Err(m@),
    }
}

pub open spec fn step_view(s: &ControlStep) -> StepView {
    match s {
        ControlStep::Done(r) => StepView::Done(text_result(r)),
        ControlStep::Call(c, p) => StepView::Call(*c, *p),
    }
}

pub open spec fn done_ok(t: Seq<char>) -> StepView {
    StepView::Done(Ok(t))
}

pub open spec fn done_err(m: Seq<char>) -> StepView {
    StepView::Done(Err(m))
}

/// A state change that may fail, answered with `text` of the new state.
pub open spec fn change(st: ControlState, r: Result<ControlState, Seq<char>>, text: spec_fn(ControlState) -> Seq<char>) -> (ControlState, StepView) {
    match r {
        Ok(t) => (t, done_ok(text(t))),
        Err(m) => (st, done_err(m)),
    }
}

/// The first step of an apply-once: the scheduler must be on, the host
/// policy off and the target nonzero; then the state is queried.
pub open spec fn apply_once_start(st: ControlState, s: HyperAllocRuntimeSnapshot) -> (ControlState, StepView) {
    if s.scheduler_enabled == 0 {
        (st, done_err("HyperAlloc scheduler dry-run is disabled"@))
    } else if s.policy_enabled != 0 {
        (st, done_err("disable HyperAlloc host policy before scheduler apply-once"@))
    } else if s.scheduler_target_huge_frames == 0 {
        (st, done_err("scheduler target huge-frame count must be nonzero"@))
    } else {
        (st, StepView::Call(InstanceCall::Query, Pending::ApplyOnceQuery { s }))
    }
}

/// The first step of an apply-all-once: as for apply-once, and the desired
/// vCPU count must be valid.
pub open spec fn apply_all_start(st: ControlState, s: HyperAllocRuntimeSnapshot) -> (ControlState, StepView) {
    if s.scheduler_enabled == 0 {
        (st, done_err("HyperAlloc scheduler dry-run is disabled"@))
    } else if s.policy_enabled != 0 {
        (st, done_err("disable HyperAlloc host policy before scheduler apply-all-once"@))
    } else if s.scheduler_target_huge_frames == 0 {
        (st, done_err("scheduler target huge-frame count must be nonzero"@))
    } else if s.scheduler_desired_vcpus == 0 {
        (st, done_err("scheduler desired vCPU count must be nonzero"@))
    } else {
        match desired_vcpus_check(s.scheduler_desired_vcpus, s.max_vcpus) {
            Err(m) => (st, done_err(m)),
            Ok(_) => (st, StepView::Call(InstanceCall::Query, Pending::ApplyAllQuery { s })),
        }
    }
}

/// The first step of a CPU apply-once: resize unless the instance already
/// runs the scheduler's count.
pub open spec fn cpu_apply_start(st: ControlState, s: HyperAllocRuntimeSnapshot) -> (ControlState, StepView) {
    if s.scheduler_enabled == 0 {
        (st, done_err("HyperAlloc scheduler dry-run is disabled"@))
    } else if s.scheduler_desired_vcpus == 0 {
        (st, done_err("scheduler desired vCPU count must be nonzero"@))
    } else {
        match desired_vcpus_check(s.scheduler_desired_vcpus, s.max_vcpus) {
            Err(m) => (st, done_err(m)),
            Ok(_) => if s.desired_vcpus == s.scheduler_desired_vcpus {
                (st, done_ok("scheduler_cpu_apply"@ + fields_text(cpu_apply_fields("hold", s.scheduler_desired_vcpus,
                    s.desired_vcpus, s.desired_vcpus, s.max_vcpus))))
            } else {
                (st, StepView::Call(InstanceCall::SetVcpuCount { count: s.scheduler_desired_vcpus }, Pending::CpuApply { s }))
            },
        }
    }
}

/// The first step of a parsed command.
pub open spec fn command_step(st: ControlState, cmd: ControlCommand, now: u64, cap: Result<u16, Seq<char>>) -> (ControlState, StepView) {
    let s = snapshot(st, now);
    match cmd {
        ControlCommand::ResizeVcpu { count } => if count == 0 || count > st.max_vcpus {
            (st, done_err(text_nums("vCPU count "@, count as nat, " outside allowed range 1..="@, st.max_vcpus as nat)))
        } else {
            (st, StepView::Call(InstanceCall::SetVcpuCount { count }, Pending::Resize { count }))
        },
        ControlCommand::Status => (st, done_ok(vcpu_text(st.desired_vcpus, st.max_vcpus, Some(st.memory_target_huge_frames)))),
        ControlCommand::Stop => (st, StepView::Call(InstanceCall::Stop, Pending::Stop)),
        ControlCommand::HyperAllocStatus => (st, StepView::Call(InstanceCall::Query, Pending::HyperAllocStatus)),
        ControlCommand::PolicyStatus => (st, done_ok("policy_status"@ + fields_text(policy_status_fields(st.instance_id, s)))),
        ControlCommand::SchedulerSnapshot => (st, StepView::Call(InstanceCall::Query, Pending::Snapshot { s })),
        ControlCommand::SchedulerStatus => (st, done_ok("scheduler_status"@ + fields_text(scheduler_status_fields(s)))),
        ControlCommand::SchedulerAutoSet { enabled } => change(st, switch_after_set(st, SchedulerSwitch::MemoryAutoApply, enabled),
            |t: ControlState| "scheduler_auto_set"@ + fields_text(scheduler_auto_set_fields(snapshot(t, now)))),
        ControlCommand::SchedulerMemoryAutoSet { enabled } => change(st, switch_after_set(st, SchedulerSwitch::MemoryAutoApply, enabled),
            |t: ControlState| "scheduler_memory_auto_set"@ + fields_text(scheduler_auto_set_fields(snapshot(t, now)))),
        ControlCommand::SchedulerCpuAutoSet { enabled } => change(st, switch_after_set(st, SchedulerSwitch::CpuAutoApply, enabled),
            |t: ControlState| "scheduler_cpu_auto_set"@ + fields_text(scheduler_auto_set_fields(snapshot(t, now)))),
        ControlCommand::SchedulerEqgateAutoSet { enabled } => change(st, switch_after_set(st, SchedulerSwitch::EqgateAutoDrain, enabled),
            |t: ControlState| "scheduler_eqgate_auto_set"@ + fields_text(scheduler_eqgate_auto_set_fields(snapshot(t, now)))),
        ControlCommand::SchedulerAdaptiveSet { enabled } => change(st, switch_after_set(st, SchedulerSwitch::Adaptive, enabled),
            |t: ControlState| "scheduler_adaptive_set"@ + fields_text(scheduler_adaptive_set_fields(snapshot(t, now)))),
        ControlCommand::SchedulerSet { interval_ms, target_huge_frames, desired_vcpus } => change(st,
            scheduler_after_set(st, interval_ms, target_huge_frames, desired_vcpus, now, cap),
            |t: ControlState| "scheduler_set"@ + fields_text(scheduler_set_fields(snapshot(t, now)))),
        ControlCommand::SchedulerIoSet { vfio_queue_goal, block_io_weight } => change(st,
            io_after_set(st, vfio_queue_goal, block_io_weight, now),
            |t: ControlState| "scheduler_io_set"@ + fields_text(scheduler_io_set_fields(snapshot(t, now)))),
        ControlCommand::SchedulerApplyOnce => apply_once_start(st, s),
        ControlCommand::SchedulerApplyAllOnce => apply_all_start(st, s),
        ControlCommand::SchedulerCpuApplyOnce => cpu_apply_start(st, s),
        ControlCommand::PolicySet { target_huge_frames, interval_ms } => {
            let t = ControlState { policy: policy_after_set(st.policy, target_huge_frames, interval_ms, now), ..st };
            (t, done_ok("policy_set"@ + fields_text(policy_set_fields(snapshot(t, now)))))
        },
        ControlCommand::MetricsSet { interval_ms } => {
            let t = ControlState { metrics: metrics_after_set(st.metrics, interval_ms, now), ..st };
            (t, done_ok("metrics_set"@ + fields_text(metrics_set_fields(snapshot(t, now)))))
        },
        ControlCommand::EvalSet { interval_ms, target_huge_frames } => {
            let t = ControlState { evaluator: evaluator_after_set(st.evaluator, interval_ms, target_huge_frames, now), ..st };
            (t, done_ok("eval_set"@ + fields_text(eval_set_fields(snapshot(t, now)))))
        },
        ControlCommand::Eval { target_huge_frames } => (st, StepView::Call(InstanceCall::Query, Pending::Eval { target_huge_frames })),
        ControlCommand::VfioDmaDebug { op, frame_gpa, frame_hpa, iova, size } => (st, StepView::Call(
            InstanceCall::VfioDmaDebug { op, frame_gpa, frame_hpa, iova, size }, Pending::VfioDmaDebug)),
        ControlCommand::VfioDmaComplete { sequence, op, status, frame_gpa, frame_hpa, iova, size } => (st, StepView::Call(
            InstanceCall::VfioDmaComplete { sequence, op, status, frame_gpa, frame_hpa, iova, size }, Pending::VfioDmaComplete)),
        ControlCommand::DebugReclaim { frame_gpa, zone_id, frame_len, flags } => (st, StepView::Call(
            InstanceCall::DebugReclaim { zone_id, frame_gpa, frame_len, flags }, Pending::DebugReclaim)),
        ControlCommand::MmapZap { gpa, len } => (st, StepView::Call(InstanceCall::MmapZap { gpa, len }, Pending::MmapZap)),
        ControlCommand::EqgateDebugEnqueue { frame_gpa, zone_id, vcpu_id, frame_len, entry_flags } => (st, StepView::Call(
            InstanceCall::EqgateEnqueue { vcpu_id, zone_id, frame_gpa, frame_len, entry_flags }, Pending::EqgateEnqueue)),
        ControlCommand::EqgateDrain { max_requests, flags } => (st, StepView::Call(
            InstanceCall::EqgateDrain { max_requests, flags }, Pending::Drain)),
        ControlCommand::SchedulerEqgateDrainOnce { max_requests, execute } => {
            let m = match max_requests {
                Some(m) => m,
                None => s.scheduler_eqgate_drain_budget,
            };
            if m == 0 {
                (st, done_err("scheduler EqGate drain max_requests must be nonzero"@))
            } else {
                (st, StepView::Call(
                    InstanceCall::EqgateDrain { max_requests: m, flags: if execute { EQGATE_DRAIN_FLAG_EXECUTE } else { 0 } },
                    Pending::DrainOnce { execute, budget: s.scheduler_eqgate_drain_budget },
                ))
            }
        },
        ControlCommand::MemoryTarget { target_huge_frames } => (st, StepView::Call(
            InstanceCall::MemoryTarget { target_huge_frames, timeout_ms: HYPERALLOC_MEMORY_TARGET_TIMEOUT_MS },
            Pending::MemoryTarget { target_huge_frames })),
    }
}

/// The first step of a request line: its parse error, or its command's step.
/// The drain-once command is refused at parse time when the scheduler is off.
pub open spec fn request_step(st: ControlState, request: Seq<char>, now: u64, cap: Result<u16, Seq<char>>) -> (ControlState, StepView) {
    match parse_command(words(request), st.scheduler is Some) {
        Err(m) => (st, done_err(m)),
        Ok(cmd) => command_step(st, cmd, now, cap),
    }
}

fn ok_step(r: Result<String, String>) -> (s: ControlStep)
    ensures
        s == ControlStep::Done(r),
{
    ControlStep::Done(r)
}

fn err_step(m: &str) -> (s: ControlStep)
    ensures
        step_view(&s) == done_err(m@),
{
    ControlStep::Done(Err(str_string(m)))
}

/// The first step of a request (see [`request_step`]). `adaptive_cap` is the
/// adaptive VFIO queue cap that the environment gives a new scheduler.
pub fn execute_command(st: &mut ControlState, request: &str, now: u64, adaptive_cap: &Result<u16, String>) -> (r: ControlStep)
    ensures
        (*final(st), step_view(&r)) == request_step(*old(st), request@, now, result_view(adaptive_cap)),
{
    let cmd = match parse_control_command(request, st.scheduler.is_some()) {
        Ok(c) => c,
        Err(m) => return ControlStep::Done(Err(m)),
    };
    let s = hyperalloc_runtime_snapshot(st, now);
    match cmd {
        ControlCommand::ResizeVcpu { count } => {
            if count == 0 || count > st.max_vcpus {
                ControlStep::Done(Err(crate::control::text_nums_exec("vCPU count ", count as u64,
                    " outside allowed range 1..=", st.max_vcpus as u64)))
            } else {
                ControlStep::Call(InstanceCall::SetVcpuCount { count }, Pending::Resize { count })
            }
        },
        ControlCommand::Status => ok_step(Ok(format_vcpu_response(st.desired_vcpus, st.max_vcpus, Some(st.memory_target_huge_frames)))),
        ControlCommand::Stop => ControlStep::Call(InstanceCall::Stop, Pending::Stop),
        ControlCommand::HyperAllocStatus => ControlStep::Call(InstanceCall::Query, Pending::HyperAllocStatus),
        ControlCommand::PolicyStatus => ok_step(Ok(format_hyperalloc_policy_status(st, now))),
        ControlCommand::SchedulerSnapshot => ControlStep::Call(InstanceCall::Query, Pending::Snapshot { s }),
        ControlCommand::SchedulerStatus => ok_step(Ok(format_hyperalloc_scheduler_status(st, now))),
        ControlCommand::SchedulerAutoSet { enabled } => ok_step(set_hyperalloc_scheduler_auto_apply(st, enabled, now)),
        ControlCommand::SchedulerMemoryAutoSet { enabled } => ok_step(set_hyperalloc_scheduler_memory_auto_apply(st, enabled, now)),
        ControlCommand::SchedulerCpuAutoSet { enabled } => ok_step(set_hyperalloc_scheduler_cpu_auto_apply(st, enabled, now)),
        ControlCommand::SchedulerEqgateAutoSet { enabled } => ok_step(set_hyperalloc_scheduler_eqgate_auto_drain(st, enabled, now)),
        ControlCommand::SchedulerAdaptiveSet { enabled } => ok_step(set_hyperalloc_scheduler_adaptive(st, enabled, now)),
        ControlCommand::SchedulerSet { interval_ms, target_huge_frames, desired_vcpus } => ok_step(
            set_hyperalloc_scheduler(st, interval_ms, target_huge_frames, desired_vcpus, now, adaptive_cap)),
        ControlCommand::SchedulerIoSet { vfio_queue_goal, block_io_weight } => ok_step(
            set_hyperalloc_scheduler_io(st, vfio_queue_goal, block_io_weight, now)),
        ControlCommand::SchedulerApplyOnce => {
            if s.scheduler_enabled == 0 {
                err_step("HyperAlloc scheduler dry-run is disabled")
            } else if s.policy_enabled != 0 {
                err_step("disable HyperAlloc host policy before scheduler apply-once")
            } else if s.scheduler_target_huge_frames == 0 {
                err_step("scheduler target huge-frame count must be nonzero")
            } else {
                ControlStep::Call(InstanceCall::Query, Pending::ApplyOnceQuery { s })
            }
        },
        ControlCommand::SchedulerApplyAllOnce => {
            if s.scheduler_enabled == 0 {
                err_step("HyperAlloc scheduler dry-run is disabled")
            } else if s.policy_enabled != 0 {
                err_step("disable HyperAlloc host policy before scheduler apply-all-once")
            } else if s.scheduler_target_huge_frames == 0 {
                err_step("scheduler target huge-frame count must be nonzero")
            } else if s.scheduler_desired_vcpus == 0 {
                err_step("scheduler desired vCPU count must be nonzero")
            } else {
                match validate_scheduler_desired_vcpus(s.scheduler_desired_vcpus, s.max_vcpus) {
                    Err(m) => ControlStep::Done(Err(m)),
                    Ok(_) => ControlStep::Call(InstanceCall::Query, Pending::ApplyAllQuery { s }),
                }
            }
        },
        ControlCommand::SchedulerCpuApplyOnce => {
            if s.scheduler_enabled == 0 {
                err_step("HyperAlloc scheduler dry-run is disabled")
            } else if s.scheduler_desired_vcpus == 0 {
                err_step("scheduler desired vCPU count must be nonzero")
            } else {
                match validate_scheduler_desired_vcpus(s.scheduler_desired_vcpus, s.max_vcpus) {
                    Err(m) => ControlStep::Done(Err(m)),
                    Ok(_) => {
                        if s.desired_vcpus == s.scheduler_desired_vcpus {
                            ok_step(Ok(format_cpu_apply_response("hold", s.scheduler_desired_vcpus,
                                s.desired_vcpus, s.desired_vcpus, s.max_vcpus)))
                        } else {
                            ControlStep::Call(InstanceCall::SetVcpuCount { count: s.scheduler_desired_vcpus }, Pending::CpuApply { s })
                        }
                    },
                }
            }
        },
        ControlCommand::PolicySet { target_huge_frames, interval_ms } => ok_step(Ok(
            set_hyperalloc_policy(st, target_huge_frames, interval_ms, now))),
        ControlCommand::MetricsSet { interval_ms } => ok_step(Ok(set_hyperalloc_metrics(st, interval_ms, now))),
        ControlCommand::EvalSet { interval_ms, target_huge_frames } => ok_step(Ok(
            set_hyperalloc_policy_evaluator(st, interval_ms, target_huge_frames, now))),
        ControlCommand::Eval { target_huge_frames } => ControlStep::Call(InstanceCall::Query, Pending::Eval { target_huge_frames }),
        ControlCommand::VfioDmaDebug { op, frame_gpa, frame_hpa, iova, size } => ControlStep::Call(
            InstanceCall::VfioDmaDebug { op, frame_gpa, frame_hpa, iova, size }, Pending::VfioDmaDebug),
        ControlCommand::VfioDmaComplete { sequence, op, status, frame_gpa, frame_hpa, iova, size } => ControlStep::Call(
            InstanceCall::VfioDmaComplete { sequence, op, status, frame_gpa, frame_hpa, iova, size }, Pending::VfioDmaComplete),
        ControlCommand::DebugReclaim { frame_gpa, zone_id, frame_len, flags } => ControlStep::Call(
            InstanceCall::DebugReclaim { zone_id, frame_gpa, frame_len, flags }, Pending::DebugReclaim),
        ControlCommand::MmapZap { gpa, len } => ControlStep::Call(InstanceCall::MmapZap { gpa, len }, Pending::MmapZap),
        ControlCommand::EqgateDebugEnqueue { frame_gpa, zone_id, vcpu_id, frame_len, entry_flags } => ControlStep::Call(
            InstanceCall::EqgateEnqueue { vcpu_id, zone_id, frame_gpa, frame_len, entry_flags }, Pending::EqgateEnqueue),
        ControlCommand::EqgateDrain { max_requests, flags } => ControlStep::Call(
            InstanceCall::EqgateDrain { max_requests, flags }, Pending::Drain),
        ControlCommand::SchedulerEqgateDrainOnce { max_requests, execute } => {
            let m = match max_requests {
                Some(m) => m,
                None => s.scheduler_eqgate_drain_budget,
            };
            if m == 0 {
                err_step("scheduler EqGate drain max_requests must be nonzero")
            } else {
                ControlStep::Call(
                    InstanceCall::EqgateDrain { max_requests: m, flags: if execute { EQGATE_DRAIN_FLAG_EXECUTE } else { 0 } },
                    Pending::DrainOnce { execute, budget: s.scheduler_eqgate_drain_budget },
                )
            }
        },
        ControlCommand::MemoryTarget { target_huge_frames } => ControlStep::Call(
            InstanceCall::MemoryTarget { target_huge_frames, timeout_ms: HYPERALLOC_MEMORY_TARGET_TIMEOUT_MS },
            Pending::MemoryTarget { target_huge_frames }),
    }
}


/// A skipped memory step of an apply-all.
pub open spec fn mem_skipped(o: Outcome) -> HyperAllocSchedulerMemoryApplyResult {
    HyperAllocSchedulerMemoryApplyResult { result: o, sequence: 0, status: 0, target_pages: 0, timeout_ms: 0 }
}

/// An issued memory step, with what the hypervisor answered.
pub open spec fn mem_issued(r: MemoryTargetReply) -> HyperAllocSchedulerMemoryApplyResult {
    HyperAllocSchedulerMemoryApplyResult {
        result: Outcome::Issued,
        sequence: r.sequence,
        status: r.status,
        target_pages: r.target_pages,
        timeout_ms: r.timeout_ms,
    }
}

/// The answer to an apply-all-once.
pub open spec fn apply_all_text(
    s: HyperAllocRuntimeSnapshot,
    q: HyperAllocQuery,
    mem: HyperAllocSchedulerMemoryApplyResult,
    cpu: HyperAllocSchedulerCpuApplyResult,
    block: Outcome,
    vfio: Outcome,
    eq: HyperAllocSchedulerEqGateAutoDrainResult,
) -> Seq<char> {
    let (d, reason) = policy_eval(q, s.scheduler_target_huge_frames);
    let (m, c, io) = scheduler_actions(s, d);
    "scheduler_apply_all"@ + fields_text(scheduler_apply_all_fields(s, q, d, reason, m, c, io, mem, cpu, block, vfio, eq))
}

/// The EqGate step of an apply-all: the block backend gets the scheduler's
/// weight, then a drain is issued or skipped.
pub open spec fn apply_all_rest(
    st: ControlState,
    s: HyperAllocRuntimeSnapshot,
    q: HyperAllocQuery,
    mem: HyperAllocSchedulerMemoryApplyResult,
    cpu: HyperAllocSchedulerCpuApplyResult,
) -> (ControlState, StepView) {
    let (block, weight) = block_policy(s);
    let t = match weight {
        Some(w) => ControlState { block_backend_io_weight: w, ..st },
        None => st,
    };
    let vfio = vfio_channel(s);
    match apply_all_eqgate_plan(s, q) {
        Plan::Skip(o) => (t, done_ok(apply_all_text(s, q, mem, cpu, block, vfio, eqgate_zero(o)))),
        Plan::Issue(b) => (t, StepView::Call(
            InstanceCall::EqgateDrain { max_requests: b, flags: EQGATE_DRAIN_FLAG_EXECUTE },
            Pending::ApplyAllEqgate { s, q, mem, cpu, block, vfio },
        )),
    }
}

/// The vCPU step of an apply-all: resize when the action says so.
pub open spec fn apply_all_cpu(
    st: ControlState,
    s: HyperAllocRuntimeSnapshot,
    q: HyperAllocQuery,
    mem: HyperAllocSchedulerMemoryApplyResult,
) -> (ControlState, StepView) {
    let (d, reason) = policy_eval(q, s.scheduler_target_huge_frames);
    let (m, c, io) = scheduler_actions(s, d);
    if c != CpuAction::WouldResize {
        apply_all_rest(st, s, q, mem, HyperAllocSchedulerCpuApplyResult {
            result: Outcome::Hold,
            desired_before: s.desired_vcpus,
            desired_after: s.desired_vcpus,
            max_vcpus: s.max_vcpus,
        })
    } else {
        (st, StepView::Call(InstanceCall::SetVcpuCount { count: s.scheduler_desired_vcpus }, Pending::ApplyAllCpu { s, q, mem }))
    }
}

/// The answer to an apply-once with the memory step named and answered.
pub open spec fn apply_once_text(s: HyperAllocRuntimeSnapshot, q: HyperAllocQuery, mword: &'static str, reply: MemoryTargetReply) -> Seq<char> {
    let (d, reason) = policy_eval(q, s.scheduler_target_huge_frames);
    let (m, c, io) = scheduler_actions(s, d);
    "scheduler_apply"@ + fields_text(scheduler_apply_fields(s, q, d, reason, m, c, io, mword, reply))
}

pub open spec fn no_reply() -> MemoryTargetReply {
    MemoryTargetReply { sequence: 0, status: 0, target_pages: 0, timeout_ms: 0 }
}

/// The next step of a request once its call is answered; a failed call
/// fails the request, except the EqGate drain of an apply-all, which is
/// reported as failed.
pub open spec fn resume_step(st: ControlState, p: Pending, reply: Result<InstanceReply, Seq<char>>, now: u64) -> (ControlState, StepView) {
    match reply {
        Err(e) => match p {
            Pending::ApplyAllEqgate { s, q, mem, cpu, block, vfio } =>
                (st, done_ok(apply_all_text(s, q, mem, cpu, block, vfio, eqgate_zero(Outcome::Failed)))),
            _ => (st, done_err(e)),
        },
        Ok(r) => match (p, r) {
            (Pending::Resize { count }, _) => {
                let t = ControlState { desired_vcpus: count, ..st };
                (t, done_ok(vcpu_text(count, st.max_vcpus, None)))
            },
            (Pending::Stop, InstanceReply::Stopped(n)) => (st, done_ok(stop_text(st.instance_id, n))),
            (Pending::HyperAllocStatus, InstanceReply::Query(q)) => (st, done_ok("hyperalloc"@ + fields_text(status_fields(q)))),
            (Pending::Eval { target_huge_frames }, InstanceReply::Query(q)) =>
                (st, done_ok("policy_eval"@ + fields_text(policy_eval_fields(q, target_huge_frames)))),
            (Pending::Snapshot { s }, InstanceReply::Query(q)) => (st, done_ok(snapshot_line(st.instance_id, s, q))),
            (Pending::MemoryTarget { target_huge_frames }, InstanceReply::MemoryTarget(m)) => {
                let t = ControlState { memory_target_huge_frames: target_huge_frames, ..st };
                (t, done_ok(memory_target_text(target_huge_frames, m)))
            },
            (Pending::ApplyOnceQuery { s }, InstanceReply::Query(q)) => {
                let (d, reason) = policy_eval(q, s.scheduler_target_huge_frames);
                let (m, c, io) = scheduler_actions(s, d);
                if m != MemoryAction::WouldTarget {
                    (st, done_ok(apply_once_text(s, q, spec_memory_action_name(m), no_reply())))
                } else {
                    (st, StepView::Call(
                        InstanceCall::MemoryTarget { target_huge_frames: s.scheduler_target_huge_frames, timeout_ms: HYPERALLOC_MEMORY_TARGET_TIMEOUT_MS },
                        Pending::ApplyOnceIssue { s, q },
                    ))
                }
            },
            (Pending::ApplyOnceIssue { s, q }, InstanceReply::MemoryTarget(m)) => {
                let t = ControlState { memory_target_huge_frames: s.scheduler_target_huge_frames, ..st };
                (t, done_ok(apply_once_text(s, q, "issued", m)))
            },
            (Pending::ApplyAllQuery { s }, InstanceReply::Query(q)) => {
                let (d, reason) = policy_eval(q, s.scheduler_target_huge_frames);
                let (m, c, io) = scheduler_actions(s, d);
                match apply_all_memory_plan(s, reason, m) {
                    Plan::Skip(o) => apply_all_cpu(st, s, q, mem_skipped(o)),
                    Plan::Issue(target) => (st, StepView::Call(
                        InstanceCall::MemoryTarget { target_huge_frames: target, timeout_ms: HYPERALLOC_MEMORY_TARGET_TIMEOUT_MS },
                        Pending::ApplyAllMemory { s, q },
                    )),
                }
            },
            (Pending::ApplyAllMemory { s, q }, InstanceReply::MemoryTarget(m)) => {
                let t = ControlState { memory_target_huge_frames: s.scheduler_target_huge_frames, ..st };
                apply_all_cpu(t, s, q, mem_issued(m))
            },
            (Pending::ApplyAllCpu { s, q, mem }, _) => {
                let t = ControlState { desired_vcpus: s.scheduler_desired_vcpus, ..st };
                apply_all_rest(t, s, q, mem, HyperAllocSchedulerCpuApplyResult {
                    result: Outcome::Issued,
                    desired_before: s.desired_vcpus,
                    desired_after: s.scheduler_desired_vcpus,
                    max_vcpus: s.max_vcpus,
                })
            },
            (Pending::ApplyAllEqgate { s, q, mem, cpu, block, vfio }, InstanceReply::EqgateDrain(d)) =>
                (st, done_ok(apply_all_text(s, q, mem, cpu, block, vfio, eqgate_issued(d)))),
            (Pending::CpuApply { s }, _) => {
                let t = ControlState { desired_vcpus: s.scheduler_desired_vcpus, ..st };
                (t, done_ok("scheduler_cpu_apply"@ + fields_text(cpu_apply_fields("issued", s.scheduler_desired_vcpus,
                    s.desired_vcpus, s.scheduler_desired_vcpus, s.max_vcpus))))
            },
            (Pending::DrainOnce { execute, budget }, InstanceReply::EqgateDrain(d)) =>
                (st, done_ok("scheduler_eqgate_drain_once"@ + fields_text(drain_once_fields(st.instance_id, execute, budget, d)))),
            (Pending::Drain, InstanceReply::EqgateDrain(d)) => (st, done_ok("eqgate_drain"@ + fields_text(eqgate_drain_fields(d)))),
            (Pending::VfioDmaDebug, InstanceReply::VfioDma(v)) => (st, done_ok("vfio_dma_debug"@ + fields_text(vfio_dma_fields(v)))),
            (Pending::VfioDmaComplete, InstanceReply::VfioDma(v)) => (st, done_ok("vfio_dma_complete"@ + fields_text(vfio_dma_fields(v)))),
            (Pending::DebugReclaim, InstanceReply::DebugReclaim(v)) => (st, done_ok("debug_reclaim"@ + fields_text(debug_reclaim_fields(v)))),
            (Pending::MmapZap, InstanceReply::MmapZap(v)) => (st, done_ok("vma_zap"@ + fields_text(vma_zap_fields(v)))),
            (Pending::EqgateEnqueue, InstanceReply::EqgateEnqueue(v)) => (st, done_ok("eqgate_debug_enqueue"@ + fields_text(eqgate_enqueue_fields(v)))),
            _ => (st, done_err(Seq::empty())),
        },
    }
}

/// A reply as characters.
pub open spec fn reply_view(r: &Result<InstanceReply, String>) -> Result<InstanceReply, Seq<char>> {
    match r {
        Ok(v) => Ok(*v),
        Err(m) => Err(m@),
    }
}

fn apply_all_finish(
    s: &HyperAllocRuntimeSnapshot,
    q: &HyperAllocQuery,
    mem: HyperAllocSchedulerMemoryApplyResult,
    cpu: HyperAllocSchedulerCpuApplyResult,
    block: Outcome,
    vfio: Outcome,
    eq: HyperAllocSchedulerEqGateAutoDrainResult,
) -> (r: String)
    ensures
        r@ == apply_all_text(*s, *q, mem, cpu, block, vfio, eq),
{
    let (d, reason) = hyperalloc_policy_eval(q, s.scheduler_target_huge_frames);
    let (m, c, io) = hyperalloc_scheduler_actions(s, d);
    format_scheduler_apply_all_response(s, q, d, reason, m, c, io, mem, cpu, block, vfio, eq)
}

fn apply_all_rest_exec(
    st: &mut ControlState,
    s: &HyperAllocRuntimeSnapshot,
    q: &HyperAllocQuery,
    mem: HyperAllocSchedulerMemoryApplyResult,
    cpu: HyperAllocSchedulerCpuApplyResult,
) -> (r: ControlStep)
    ensures
        (*final(st), step_view(&r)) == apply_all_rest(*old(st), *s, *q, mem, cpu),
{
    let (block, weight) = apply_hyperalloc_scheduler_block_io_policy(s);
    if let Some(w) = weight {
        st.block_backend_io_weight = w;
    }
    let vfio = hyperalloc_scheduler_vfio_channel_result(s);
    match apply_hyperalloc_scheduler_eqgate_plan(s, q) {
        Plan::Skip(o) => ControlStep::Done(Ok(apply_all_finish(s, q, mem, cpu, block, vfio,
            HyperAllocSchedulerEqGateAutoDrainResult::zero(o)))),
        Plan::Issue(b) => ControlStep::Call(
            InstanceCall::EqgateDrain { max_requests: b, flags: EQGATE_DRAIN_FLAG_EXECUTE },
            Pending::ApplyAllEqgate { s: *s, q: *q, mem, cpu, block, vfio },
        ),
    }
}

fn apply_all_cpu_exec(
    st: &mut ControlState,
    s: &HyperAllocRuntimeSnapshot,
    q: &HyperAllocQuery,
    mem: HyperAllocSchedulerMemoryApplyResult,
) -> (r: ControlStep)
    ensures
        (*final(st), step_view(&r)) == apply_all_cpu(*old(st), *s, *q, mem),
{
    let (d, reason) = hyperalloc_policy_eval(q, s.scheduler_target_huge_frames);
    let (m, c, io) = hyperalloc_scheduler_actions(s, d);
    if c != CpuAction::WouldResize {
        apply_all_rest_exec(st, s, q, mem, HyperAllocSchedulerCpuApplyResult::new(
            Outcome::Hold, s.desired_vcpus, s.desired_vcpus, s.max_vcpus))
    } else {
        ControlStep::Call(InstanceCall::SetVcpuCount { count: s.scheduler_desired_vcpus }, Pending::ApplyAllCpu { s: *s, q: *q, mem })
    }
}

fn apply_once_finish(s: &HyperAllocRuntimeSnapshot, q: &HyperAllocQuery, mword: &'static str, reply: MemoryTargetReply) -> (r: String)
    ensures
        r@ == apply_once_text(*s, *q, mword, reply),
{
    let (d, reason) = hyperalloc_policy_eval(q, s.scheduler_target_huge_frames);
    let (m, c, io) = hyperalloc_scheduler_actions(s, d);
    format_scheduler_apply_response(s, q, d, reason, m, c, io, mword, reply)
}

/// The next step of a request once its call is answered (see [`resume_step`]).
pub fn resume_command(st: &mut ControlState, p: Pending, reply: Result<InstanceReply, String>, now: u64) -> (r: ControlStep)
    requires
        reply matches Ok(x) ==> pending_fits(p, x),
    ensures
        (*final(st), step_view(&r)) == resume_step(*old(st), p, reply_view(&reply), now),
{
    let r = match reply {
        Err(e) => {
            return match p {
                Pending::ApplyAllEqgate { s, q, mem, cpu, block, vfio } => ControlStep::Done(Ok(apply_all_finish(
                    &s, &q, mem, cpu, block, vfio, HyperAllocSchedulerEqGateAutoDrainResult::zero(Outcome::Failed)))),
                _ => ControlStep::Done(Err(e)),
            };
        },
        Ok(r) => r,
    };
    match p {
        Pending::Resize { count } => {
            st.desired_vcpus = count;
            ControlStep::Done(Ok(format_vcpu_response(count, st.max_vcpus, None)))
        },
        Pending::Stop => match r {
            InstanceReply::Stopped(n) => ControlStep::Done(Ok(format_stop_response(st.instance_id, n))),
            _ => ControlStep::Done(Err(String::new())),
        },
        Pending::HyperAllocStatus => match r {
            InstanceReply::Query(q) => ControlStep::Done(Ok(format_hyperalloc_status(&q))),
            _ => ControlStep::Done(Err(String::new())),
        },
        Pending::Eval { target_huge_frames } => match r {
            InstanceReply::Query(q) => ControlStep::Done(Ok(format_hyperalloc_policy_eval(&q, target_huge_frames))),
            _ => ControlStep::Done(Err(String::new())),
        },
        Pending::Snapshot { s } => match r {
            InstanceReply::Query(q) => ControlStep::Done(Ok(format_hyperalloc_scheduler_snapshot(st.instance_id, &s, &q))),
            _ => ControlStep::Done(Err(String::new())),
        },
        Pending::MemoryTarget { target_huge_frames } => match r {
            InstanceReply::MemoryTarget(m) => {
                st.memory_target_huge_frames = target_huge_frames;
                ControlStep::Done(Ok(format_memory_target_response(target_huge_frames, &m)))
            },
            _ => ControlStep::Done(Err(String::new())),
        },
        Pending::ApplyOnceQuery { s } => match r {
            InstanceReply::Query(q) => {
                let (d, reason) = hyperalloc_policy_eval(&q, s.scheduler_target_huge_frames);
                let (m, c, io) = hyperalloc_scheduler_actions(&s, d);
                if m != MemoryAction::WouldTarget {
                    ControlStep::Done(Ok(apply_once_finish(&s, &q, memory_action_name(m),
                        MemoryTargetReply { sequence: 0, status: 0, target_pages: 0, timeout_ms: 0 })))
                } else {
                    ControlStep::Call(
                        InstanceCall::MemoryTarget { target_huge_frames: s.scheduler_target_huge_frames, timeout_ms: HYPERALLOC_MEMORY_TARGET_TIMEOUT_MS },
                        Pending::ApplyOnceIssue { s, q },
                    )
                }
            },
            _ => ControlStep::Done(Err(String::new())),
        },
        Pending::ApplyOnceIssue { s, q } => match r {
            InstanceReply::MemoryTarget(m) => {
                st.memory_target_huge_frames = s.scheduler_target_huge_frames;
                ControlStep::Done(Ok(apply_once_finish(&s, &q, "issued", m)))
            },
            _ => ControlStep::Done(Err(String::new())),
        },
        Pending::ApplyAllQuery { s } => match r {
            InstanceReply::Query(q) => {
                let (d, reason) = hyperalloc_policy_eval(&q, s.scheduler_target_huge_frames);
                let (m, c, io) = hyperalloc_scheduler_actions(&s, d);
                match apply_hyperalloc_scheduler_memory_plan(&s, reason, m) {
                    Plan::Skip(o) => apply_all_cpu_exec(st, &s, &q, HyperAllocSchedulerMemoryApplyResult::zero(o)),
                    Plan::Issue(target) => ControlStep::Call(
                        InstanceCall::MemoryTarget { target_huge_frames: target, timeout_ms: HYPERALLOC_MEMORY_TARGET_TIMEOUT_MS },
                        Pending::ApplyAllMemory { s, q },
                    ),
                }
            },
            _ => ControlStep::Done(Err(String::new())),
        },
        Pending::ApplyAllMemory { s, q } => match r {
            InstanceReply::MemoryTarget(m) => {
                st.memory_target_huge_frames = s.scheduler_target_huge_frames;
                apply_all_cpu_exec(st, &s, &q, HyperAllocSchedulerMemoryApplyResult {
                    result: Outcome::Issued,
                    sequence: m.sequence,
                    status: m.status,
                    target_pages: m.target_pages,
                    timeout_ms: m.timeout_ms,
                })
            },
            _ => ControlStep::Done(Err(String::new())),
        },
        Pending::ApplyAllCpu { s, q, mem } => {
            st.desired_vcpus = s.scheduler_desired_vcpus;
            apply_all_rest_exec(st, &s, &q, mem, HyperAllocSchedulerCpuApplyResult::new(
                Outcome::Issued, s.desired_vcpus, s.scheduler_desired_vcpus, s.max_vcpus))
        },
        Pending::ApplyAllEqgate { s, q, mem, cpu, block, vfio } => match r {
            InstanceReply::EqgateDrain(d) => ControlStep::Done(Ok(apply_all_finish(&s, &q, mem, cpu, block, vfio,
                HyperAllocSchedulerEqGateAutoDrainResult::issued(&d)))),
            _ => ControlStep::Done(Err(String::new())),
        },
        Pending::CpuApply { s } => {
            st.desired_vcpus = s.scheduler_desired_vcpus;
            ControlStep::Done(Ok(format_cpu_apply_response("issued", s.scheduler_desired_vcpus,
                s.desired_vcpus, s.scheduler_desired_vcpus, s.max_vcpus)))
        },
        Pending::DrainOnce { execute, budget } => match r {
            InstanceReply::EqgateDrain(d) => ControlStep::Done(Ok(format_drain_once_response(st.instance_id, execute, budget, &d))),
            _ => ControlStep::Done(Err(String::new())),
        },
        Pending::Drain => match r {
            InstanceReply::EqgateDrain(d) => ControlStep::Done(Ok(format_eqgate_drain_response(&d))),
            _ => ControlStep::Done(Err(String::new())),
        },
        Pending::VfioDmaDebug => match r {
            InstanceReply::VfioDma(v) => ControlStep::Done(Ok(format_vfio_dma_debug_response(&v))),
            _ => ControlStep::Done(Err(String::new())),
        },
        Pending::VfioDmaComplete => match r {
            InstanceReply::VfioDma(v) => ControlStep::Done(Ok(format_vfio_dma_complete_response(&v))),
            _ => ControlStep::Done(Err(String::new())),
        },
        Pending::DebugReclaim => match r {
            InstanceReply::DebugReclaim(v) => ControlStep::Done(Ok(format_debug_reclaim_response(&v))),
            _ => ControlStep::Done(Err(String::new())),
        },
        Pending::MmapZap => match r {
            InstanceReply::MmapZap(v) => ControlStep::Done(Ok(format_vma_zap_response(&v))),
            _ => ControlStep::Done(Err(String::new())),
        },
        Pending::EqgateEnqueue => match r {
            InstanceReply::EqgateEnqueue(v) => ControlStep::Done(Ok(format_eqgate_enqueue_response(&v))),
            _ => ControlStep::Done(Err(String::new())),
        },
    }
}

/// The settings a control state keeps valid: the running vCPU count
/// within `1..=max_vcpus`, every timer interval at or above its minimum,
/// the policy and scheduler targets nonzero, and the scheduler's goals
/// within their limits.
pub open spec fn control_wf(st: ControlState) -> bool {
    &&& 1 <= st.desired_vcpus <= st.max_vcpus
    &&& (st.policy matches Some(p) ==> p.target_huge_frames != 0 && p.interval_ms >= HYPERALLOC_POLICY_MIN_INTERVAL_MS)
    &&& (st.metrics matches Some(m) ==> m.interval_ms >= HYPERALLOC_METRICS_MIN_INTERVAL_MS)
    &&& (st.evaluator matches Some(e) ==> e.interval_ms >= HYPERALLOC_EVAL_MIN_INTERVAL_MS)
    &&& (st.scheduler matches Some(sc) ==> {
        &&& sc.interval_ms >= HYPERALLOC_SCHEDULER_MIN_INTERVAL_MS
        &&& sc.target_huge_frames != 0
        &&& 1 <= sc.desired_vcpus <= st.max_vcpus
        &&& sc.vfio_queue_goal <= HYPERALLOC_SCHEDULER_MAX_VFIO_QUEUE_GOAL
        &&& sc.block_io_weight <= HYPERALLOC_SCHEDULER_MAX_BLOCK_IO_WEIGHT
        &&& sc.adaptive_vfio_queue_cap <= HYPERALLOC_SCHEDULER_MAX_VFIO_QUEUE_GOAL
    })
}

/// Whether an adaptive VFIO queue cap handed to a new scheduler is within
/// its limit, as the environment parser gives it.
pub open spec fn cap_ok(cap: Result<u16, Seq<char>>) -> bool {
    cap matches Ok(c) ==> c <= HYPERALLOC_SCHEDULER_MAX_VFIO_QUEUE_GOAL
}

/// Whether a pending step fits the state it will resume on: a vCPU count
/// it will set is within `1..=max_vcpus`.
pub open spec fn pending_ok(st: ControlState, p: Pending) -> bool {
    match p {
        Pending::Resize { count } => 1 <= count <= st.max_vcpus,
        Pending::ApplyAllQuery { s } => 1 <= s.scheduler_desired_vcpus <= st.max_vcpus,
        Pending::ApplyAllMemory { s, .. } => 1 <= s.scheduler_desired_vcpus <= st.max_vcpus,
        Pending::ApplyAllCpu { s, .. } => 1 <= s.scheduler_desired_vcpus <= st.max_vcpus,
        Pending::CpuApply { s } => 1 <= s.scheduler_desired_vcpus <= st.max_vcpus,
        _ => true,
    }
}

/// Whether a step leaves a valid state and, when it waits on a call, a
/// pending step that fits it.
pub open spec fn step_wf(r: (ControlState, StepView)) -> bool {
    &&& control_wf(r.0)
    &&& (r.1 matches StepView::Call(_, p) ==> pending_ok(r.0, p))
}

/// Every step of every request keeps the control state valid, whatever the
/// request and whatever the instance answers: the first step (refused
/// requests change nothing, and each setting command checks what it sets),
/// and each step resumed with a reply; the vCPU counts that steps carry
/// to their replies are always within range.
pub proof fn lemma_request_keeps_wf(st: ControlState, request: Seq<char>, now: u64, cap: Result<u16, Seq<char>>)
    requires
        control_wf(st),
        cap_ok(cap),
    ensures
        step_wf(request_step(st, request, now, cap)),
{
    match parse_command(words(request), st.scheduler is Some) {
        Err(_) => {},
        Ok(cmd) => lemma_command_keeps_wf(st, cmd, now, cap),
    }
}

#[verifier::spinoff_prover]
#[verifier::rlimit(80)]
proof fn lemma_command_keeps_wf(st: ControlState, cmd: ControlCommand, now: u64, cap: Result<u16, Seq<char>>)
    requires
        control_wf(st),
        cap_ok(cap),
    ensures
        step_wf(command_step(st, cmd, now, cap)),
{
    match cmd {
        ControlCommand::SchedulerSet { interval_ms, target_huge_frames, desired_vcpus } => {
            let r = scheduler_after_set(st, interval_ms, target_huge_frames, desired_vcpus, now, cap);
            assert(r matches Ok(t) ==> control_wf(t));
        },
        ControlCommand::SchedulerIoSet { vfio_queue_goal, block_io_weight } => {
            let r = io_after_set(st, vfio_queue_goal, block_io_weight, now);
            assert(r matches Ok(t) ==> control_wf(t));
        },
        _ => {},
    }
}

/// See [`lemma_request_keeps_wf`]: resuming a step that fits the state
/// keeps it valid, for any reply.
#[verifier::spinoff_prover]
#[verifier::rlimit(80)]
pub proof fn lemma_resume_keeps_wf(st: ControlState, p: Pending, reply: Result<InstanceReply, Seq<char>>, now: u64)
    requires
        control_wf(st),
        pending_ok(st, p),
    ensures
        step_wf(resume_step(st, p, reply, now)),
{
    match reply {
        Err(_) => {},
        Ok(r) => match p {
            Pending::ApplyAllQuery { s } => {
                if let InstanceReply::Query(q) = r {
                    let (d, reason) = policy_eval(q, s.scheduler_target_huge_frames);
                    let (m, c, io) = scheduler_actions(s, d);
                    match apply_all_memory_plan(s, reason, m) {
                        Plan::Skip(o) => lemma_apply_all_cpu_wf(st, s, q, mem_skipped(o)),
                        Plan::Issue(_) => {},
                    }
                }
            },
            Pending::ApplyAllMemory { s, q } => {
                if let InstanceReply::MemoryTarget(m) = r {
                    let t = ControlState { memory_target_huge_frames: s.scheduler_target_huge_frames, ..st };
                    lemma_apply_all_cpu_wf(t, s, q, mem_issued(m));
                }
            },
            Pending::ApplyAllCpu { s, q, mem } => {
                let t = ControlState { desired_vcpus: s.scheduler_desired_vcpus, ..st };
                lemma_apply_all_rest_wf(t, s, q, mem, HyperAllocSchedulerCpuApplyResult {
                    result: Outcome::Issued,
                    desired_before: s.desired_vcpus,
                    desired_after: s.scheduler_desired_vcpus,
                    max_vcpus: s.max_vcpus,
                });
            },
            _ => {},
        },
    }
}

proof fn lemma_apply_all_rest_wf(
    st: ControlState,
    s: HyperAllocRuntimeSnapshot,
    q: HyperAllocQuery,
    mem: HyperAllocSchedulerMemoryApplyResult,
    cpu: HyperAllocSchedulerCpuApplyResult,
)
    requires
        control_wf(st),
    ensures
        step_wf(apply_all_rest(st, s, q, mem, cpu)),
{
}

proof fn lemma_apply_all_cpu_wf(
    st: ControlState,
    s: HyperAllocRuntimeSnapshot,
    q: HyperAllocQuery,
    mem: HyperAllocSchedulerMemoryApplyResult,
)
    requires
        control_wf(st),
        1 <= s.scheduler_desired_vcpus <= st.max_vcpus,
    ensures
        step_wf(apply_all_cpu(st, s, q, mem)),
{
    let (d, reason) = policy_eval(q, s.scheduler_target_huge_frames);
    let (m, c, io) = scheduler_actions(s, d);
    if c != CpuAction::WouldResize {
        lemma_apply_all_rest_wf(st, s, q, mem, HyperAllocSchedulerCpuApplyResult {
            result: Outcome::Hold,
            desired_before: s.desired_vcpus,
            desired_after: s.desired_vcpus,
            max_vcpus: s.max_vcpus,
        });
    }
}

/// A control state started from the environment is valid, for a vCPU
/// count within `1..=max_vcpus`.
#[verifier::spinoff_prover]
#[verifier::rlimit(60)]
pub proof fn lemma_initial_state_wf(
    instance_id: u64,
    default_vcpus: u8,
    max_vcpus: u8,
    has_block_backend: bool,
    has_vfio_backend: bool,
    env: &ControlEnv,
    now: u64,
)
    requires
        1 <= default_vcpus <= max_vcpus,
    ensures
        initial_state(instance_id, default_vcpus, max_vcpus, has_block_backend, has_vfio_backend, env, now) matches Ok(st)
            ==> control_wf(st),
{
}

/// A vCPU resize request for `count` vCPUs asks the instance for exactly
/// `count` vCPUs when `1 <= count <= max_vcpus`, and is refused with an
/// error, changing nothing and asking nothing, only outside that range.
pub proof fn lemma_resize_within_range(st: ControlState, request: Seq<char>, now: u64, cap: Result<u16, Seq<char>>, count: u8)
    requires
        parse_command(words(request), st.scheduler is Some) == Ok::<ControlCommand, Seq<char>>(
            ControlCommand::ResizeVcpu { count },
        ),
    ensures
        1 <= count <= st.max_vcpus ==> request_step(st, request, now, cap) == (
            st,
            StepView::Call(InstanceCall::SetVcpuCount { count }, Pending::Resize { count }),
        ),
        !(1 <= count <= st.max_vcpus) ==> request_step(st, request, now, cap).0 == st && request_step(
            st,
            request,
            now,
            cap,
        ).1 matches StepView::Done(Err(_)),
{
}

} // verus!
