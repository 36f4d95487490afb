//! The periodic work of the control server: the host policy, the metrics
//! sampler, the policy evaluator and the scheduler tick. Each poll says
//! whether its timer is due; the scheduler tick then runs as a sequence of
//! calls on the instance, like a request.
use vstd::prelude::*;
use crate::control_step::{InstanceCall, InstanceReply, reply_view, control_wf};
use crate::hyperalloc::{
    HyperAllocQuery, policy_eval, hyperalloc_policy_eval, pagecache_outstanding,
    hyperalloc_pagecache_request_outstanding, EQGATE_DRAIN_FLAG_EXECUTE,
};
use crate::report::fields_text;
use crate::scheduler::{
    ControlState, HyperAllocPolicy, HyperAllocRuntimeSnapshot, HyperAllocSchedulerDryRun,
    HyperAllocMetricsSampler, HyperAllocPolicyEvaluator, Outcome, Plan, MemoryTargetReply,
    elapsed, snapshot, hyperalloc_runtime_snapshot, adapt, maybe_adapt_hyperalloc_scheduler_goals,
    scheduler_actions, hyperalloc_scheduler_actions, auto_memory_plan, auto_apply_memory_plan,
    auto_cpu_plan, auto_apply_cpu_plan, io_apply, maybe_apply_hyperalloc_scheduler_io,
    auto_eqgate_plan, auto_drain_eqgate_plan, eqgate_zero, eqgate_issued,
    HyperAllocSchedulerAdaptResult, HyperAllocSchedulerAutoApplyResult,
    HyperAllocSchedulerCpuAutoApplyResult, HyperAllocSchedulerIoApplyResult,
    HyperAllocSchedulerEqGateAutoDrainResult, HYPERALLOC_MEMORY_TARGET_TIMEOUT_MS,
    HYPERALLOC_SCHEDULER_MAX_BLOCK_IO_WEIGHT,
};
use crate::scheduler_report::{scheduler_tick_fields, format_hyperalloc_scheduler_tick};

verus! {

/// Whether a timer last run at `last` with period `interval` is due at `now`.
pub open spec fn due(now: u64, last: u64, interval: u64) -> bool {
    elapsed(now, last) >= interval
}

fn is_due(now: u64, last: u64, interval: u64) -> (r: bool)
    ensures
        r == due(now, last, interval),
{
    now.saturating_sub(last) >= interval
}

/// The host policy's poll: when its timer is due it restarts the timer and
/// asks for a query.
pub fn poll_policy_once(st: &mut ControlState, now: u64) -> (r: Option<InstanceCall>)
    ensures
        match old(st).policy {
            Some(p) if due(now, p.last_tick_ms, p.interval_ms) => r == Some(InstanceCall::Query)
                && *final(st) == (ControlState { policy: Some(HyperAllocPolicy { last_tick_ms: now, ..p }), ..*old(st) }),
            _ => r is None && *final(st) == *old(st),
        },
{
    match st.policy {
        Some(p) => {
            if is_due(now, p.last_tick_ms, p.interval_ms) {
                st.policy = Some(HyperAllocPolicy { last_tick_ms: now, ..p });
                Some(InstanceCall::Query)
            } else {
                None
            }
        },
        None => None,
    }
}

/// Why the host policy leaves the memory target alone on a tick.
#[derive(Clone, Copy, Debug, PartialEq, Eq, Structural)]
pub enum PolicySkip {
    /// A page-cache shrink is still outstanding.
    Pending,
    /// The last completed request is still the latest.
    Stable,
    /// The request it issued has just completed.
    Completed,
}

/// What the host policy does with a query.
#[derive(Clone, Copy, Debug, PartialEq, Eq, Structural)]
pub enum PolicyDecision {
    /// There is no host policy.
    Off,
    Skip(PolicySkip),
    /// Issue a memory target.
    Issue { target_huge_frames: u64 },
}

/// The host policy's decision on a query: wait while a shrink is
/// outstanding, hold while the completed request is the latest, record the
/// completion of its own request, and otherwise issue its target again.
pub open spec fn policy_on_query(st: ControlState, q: HyperAllocQuery) -> (ControlState, PolicyDecision) {
    match st.policy {
        None => (st, PolicyDecision::Off),
        Some(p) => if pagecache_outstanding(q) {
            (st, PolicyDecision::Skip(PolicySkip::Pending))
        } else if p.last_completed_seq != 0 && q.last_pagecache_shrink_seq == p.last_completed_seq {
            (st, PolicyDecision::Skip(PolicySkip::Stable))
        } else if p.last_issued_seq != 0 && q.last_pagecache_shrink_seq == p.last_issued_seq {
            (ControlState {
                policy: Some(HyperAllocPolicy { last_completed_seq: q.last_pagecache_shrink_seq, ..p }),
                ..st
            }, PolicyDecision::Skip(PolicySkip::Completed))
        } else {
            (st, PolicyDecision::Issue { target_huge_frames: p.target_huge_frames })
        },
    }
}

pub fn hyperalloc_policy_on_query(st: &mut ControlState, q: &HyperAllocQuery) -> (r: PolicyDecision)
    ensures
        (*final(st), r) == policy_on_query(*old(st), *q),
{
    match st.policy {
        None => PolicyDecision::Off,
        Some(p) => {
            if hyperalloc_pagecache_request_outstanding(q) {
                PolicyDecision::Skip(PolicySkip::Pending)
            } else if p.last_completed_seq != 0 && q.last_pagecache_shrink_seq == p.last_completed_seq {
                PolicyDecision::Skip(PolicySkip::Stable)
            } else if p.last_issued_seq != 0 && q.last_pagecache_shrink_seq == p.last_issued_seq {
                st.policy = Some(HyperAllocPolicy { last_completed_seq: q.last_pagecache_shrink_seq, ..p });
                PolicyDecision::Skip(PolicySkip::Completed)
            } else {
                PolicyDecision::Issue { target_huge_frames: p.target_huge_frames }
            }
        },
    }
}

/// Records a memory target that the host policy issued: the instance's
/// target becomes it and the policy remembers the request's sequence.
pub fn hyperalloc_policy_on_issued(st: &mut ControlState, target_huge_frames: u64, reply: &MemoryTargetReply)
    ensures
        *final(st) == (ControlState {
            memory_target_huge_frames: target_huge_frames,
            policy: match old(st).policy {
                Some(p) => Some(HyperAllocPolicy { last_issued_seq: reply.sequence, ..p }),
                None => None,
            },
            ..*old(st)
        }),
{
    st.memory_target_huge_frames = target_huge_frames;
    if let Some(p) = st.policy {
        st.policy = Some(HyperAllocPolicy { last_issued_seq: reply.sequence, ..p });
    }
}

/// The metrics sampler's poll: when due it restarts its timer and asks for a
/// query, whose status line is then logged.
pub fn poll_metrics_once(st: &mut ControlState, now: u64) -> (r: Option<InstanceCall>)
    ensures
        match old(st).metrics {
            Some(m) if due(now, m.last_sample_ms, m.interval_ms) => r == Some(InstanceCall::Query)
                && *final(st) == (ControlState { metrics: Some(HyperAllocMetricsSampler { last_sample_ms: now, ..m }), ..*old(st) }),
            _ => r is None && *final(st) == *old(st),
        },
{
    match st.metrics {
        Some(m) => {
            if is_due(now, m.last_sample_ms, m.interval_ms) {
                st.metrics = Some(HyperAllocMetricsSampler { last_sample_ms: now, ..m });
                Some(InstanceCall::Query)
            } else {
                None
            }
        },
        None => None,
    }
}

/// The policy evaluator's poll: when due it restarts its timer and returns
/// the target to evaluate a query against.
pub fn poll_policy_eval_once(st: &mut ControlState, now: u64) -> (r: Option<u64>)
    ensures
        match old(st).evaluator {
            Some(e) if due(now, e.last_eval_ms, e.interval_ms) => r == Some(e.target_huge_frames)
                && *final(st) == (ControlState { evaluator: Some(HyperAllocPolicyEvaluator { last_eval_ms: now, ..e }), ..*old(st) }),
            _ => r is None && *final(st) == *old(st),
        },
{
    match st.evaluator {
        Some(e) => {
            if is_due(now, e.last_eval_ms, e.interval_ms) {
                st.evaluator = Some(HyperAllocPolicyEvaluator { last_eval_ms: now, ..e });
                Some(e.target_huge_frames)
            } else {
                None
            }
        },
        None => None,
    }
}

/// What a scheduler tick does with the reply to its call.
#[derive(Clone, Copy, Debug)]
pub enum TickPending {
    Query { s: HyperAllocRuntimeSnapshot },
    Memory { s: HyperAllocRuntimeSnapshot, q: HyperAllocQuery, a: HyperAllocSchedulerAdaptResult },
    Cpu {
        s: HyperAllocRuntimeSnapshot,
        q: HyperAllocQuery,
        a: HyperAllocSchedulerAdaptResult,
        auto: HyperAllocSchedulerAutoApplyResult,
    },
    Eqgate {
        s: HyperAllocRuntimeSnapshot,
        q: HyperAllocQuery,
        a: HyperAllocSchedulerAdaptResult,
        auto: HyperAllocSchedulerAutoApplyResult,
        cpu: HyperAllocSchedulerCpuAutoApplyResult,
        ioa: HyperAllocSchedulerIoApplyResult,
    },
}

/// The call that a pending tick waits on, by its kind of reply.
pub open spec fn tick_fits(p: TickPending, r: InstanceReply) -> bool {
    match p {
        TickPending::Query { .. } => r is Query,
        TickPending::Memory { .. } => r is MemoryTarget,
        TickPending::Cpu { .. } => r is VcpuCountSet,
        TickPending::Eqgate { .. } => r is EqgateDrain,
    }
}

/// The next step of a scheduler tick: nothing to do, a call, or the end
/// with the tick's report line (or the failed query's message).
pub enum TickStep {
    Idle,
    Call(InstanceCall, TickPending),
    Done(Result<String, String>),
}

pub enum TickView {
    Idle,
    Call(InstanceCall, TickPending),
    Done(Result<Seq<char>, Seq<char>>),
}

pub open spec fn tick_view(t: &TickStep) -> TickView {
    match t {
        TickStep::Idle => TickView::Idle,
        TickStep::Call(c, p) => TickView::Call(*c, *p),
        TickStep::Done(Ok(l)) => TickView::Done(Ok(l@)),
        TickStep::Done(Err(m)) => TickView::Done(Err(m@)),
    }
}

/// The scheduler's poll: when its timer is due it restarts it and queries
/// the instance, keeping the snapshot taken then.
pub open spec fn scheduler_poll(st: ControlState, now: u64) -> (ControlState, TickView) {
    match st.scheduler {
        Some(sc) if due(now, sc.last_tick_ms, sc.interval_ms) => {
            let t = ControlState { scheduler: Some(HyperAllocSchedulerDryRun { last_tick_ms: now, ..sc }), ..st };
            (t, TickView::Call(InstanceCall::Query, TickPending::Query { s: snapshot(t, now) }))
        },
        _ => (st, TickView::Idle),
    }
}

pub fn poll_scheduler_once(st: &mut ControlState, now: u64) -> (r: TickStep)
    ensures
        (*final(st), tick_view(&r)) == scheduler_poll(*old(st), now),
{
    match st.scheduler {
        Some(sc) => {
            if is_due(now, sc.last_tick_ms, sc.interval_ms) {
                st.scheduler = Some(HyperAllocSchedulerDryRun { last_tick_ms: now, ..sc });
                let s = hyperalloc_runtime_snapshot(st, now);
                TickStep::Call(InstanceCall::Query, TickPending::Query { s })
            } else {
                TickStep::Idle
            }
        },
        None => TickStep::Idle,
    }
}

pub open spec fn auto_zero(o: Outcome) -> HyperAllocSchedulerAutoApplyResult {
    HyperAllocSchedulerAutoApplyResult { result: o, sequence: 0, status: 0, target_pages: 0, timeout_ms: 0 }
}

pub open spec fn auto_issued(r: MemoryTargetReply) -> HyperAllocSchedulerAutoApplyResult {
    HyperAllocSchedulerAutoApplyResult {
        result: Outcome::Issued,
        sequence: r.sequence,
        status: r.status,
        target_pages: r.target_pages,
        timeout_ms: r.timeout_ms,
    }
}

pub open spec fn cpu_result(o: Outcome, before: u8, after: u8, max_vcpus: u8) -> HyperAllocSchedulerCpuAutoApplyResult {
    HyperAllocSchedulerCpuAutoApplyResult { result: o, desired_before: before, desired_after: after, max_vcpus }
}

/// The tick's report line.
pub open spec fn tick_text(
    s: HyperAllocRuntimeSnapshot,
    q: HyperAllocQuery,
    a: HyperAllocSchedulerAdaptResult,
    auto: HyperAllocSchedulerAutoApplyResult,
    cpu: HyperAllocSchedulerCpuAutoApplyResult,
    ioa: HyperAllocSchedulerIoApplyResult,
    eq: HyperAllocSchedulerEqGateAutoDrainResult,
) -> Seq<char> {
    let (d, reason) = policy_eval(q, s.scheduler_target_huge_frames);
    let (m, c, io) = scheduler_actions(s, d);
    "scheduler_tick"@ + fields_text(scheduler_tick_fields(s, q, d, reason, m, c, io, a, auto, cpu, ioa, eq))
}

/// The I/O and EqGate steps of a tick.
pub open spec fn tick_io(
    st: ControlState,
    s: HyperAllocRuntimeSnapshot,
    q: HyperAllocQuery,
    a: HyperAllocSchedulerAdaptResult,
    auto: HyperAllocSchedulerAutoApplyResult,
    cpu: HyperAllocSchedulerCpuAutoApplyResult,
) -> (ControlState, TickView) {
    let (d, reason) = policy_eval(q, s.scheduler_target_huge_frames);
    let (m, c, io) = scheduler_actions(s, d);
    let (ioa, weight) = io_apply(s, io);
    let t = match weight {
        Some(w) => ControlState { block_backend_io_weight: w, ..st },
        None => st,
    };
    match auto_eqgate_plan(s, q) {
        Plan::Skip(o) => (t, TickView::Done(Ok(tick_text(s, q, a, auto, cpu, ioa, eqgate_zero(o))))),
        Plan::Issue(b) => (t, TickView::Call(
            InstanceCall::EqgateDrain { max_requests: b, flags: EQGATE_DRAIN_FLAG_EXECUTE },
            TickPending::Eqgate { s, q, a, auto, cpu, ioa },
        )),
    }
}

/// The vCPU step of a tick.
pub open spec fn tick_cpu(
    st: ControlState,
    s: HyperAllocRuntimeSnapshot,
    q: HyperAllocQuery,
    a: HyperAllocSchedulerAdaptResult,
    auto: HyperAllocSchedulerAutoApplyResult,
) -> (ControlState, TickView) {
    let (d, reason) = policy_eval(q, s.scheduler_target_huge_frames);
    let (m, c, io) = scheduler_actions(s, d);
    match auto_cpu_plan(s, c) {
        Plan::Skip(o) => tick_io(st, s, q, a, auto, cpu_result(o, s.desired_vcpus, s.desired_vcpus, s.max_vcpus)),
        Plan::Issue(n) => (st, TickView::Call(InstanceCall::SetVcpuCount { count: n }, TickPending::Cpu { s, q, a, auto })),
    }
}

/// The memory step of a tick.
pub open spec fn tick_memory(st: ControlState, s: HyperAllocRuntimeSnapshot, q: HyperAllocQuery, a: HyperAllocSchedulerAdaptResult) -> (ControlState, TickView) {
    let (d, reason) = policy_eval(q, s.scheduler_target_huge_frames);
    let (m, c, io) = scheduler_actions(s, d);
    match auto_memory_plan(s, reason, m) {
        Plan::Skip(o) => tick_cpu(st, s, q, a, auto_zero(o)),
        Plan::Issue(t) => (st, TickView::Call(
            InstanceCall::MemoryTarget { target_huge_frames: t, timeout_ms: HYPERALLOC_MEMORY_TARGET_TIMEOUT_MS },
            TickPending::Memory { s, q, a },
        )),
    }
}

/// The next step of a tick once its call is answered. A failed query ends
/// the tick; a failed memory target, resize or drain is reported as failed.
/// After the query the goals adapt, and the snapshot is taken again when
/// they changed.
pub open spec fn tick_resume(st: ControlState, p: TickPending, reply: Result<InstanceReply, Seq<char>>, now: u64) -> (ControlState, TickView) {
    match p {
        TickPending::Query { s } => match reply {
            Err(e) => (st, TickView::Done(Err(e))),
            Ok(InstanceReply::Query(q)) => {
                let (t, a) = adapt(st, s, q);
                let s2 = if a.result == Outcome::Updated { snapshot(t, now) } else { s };
                tick_memory(t, s2, q, a)
            },
            _ => (st, TickView::Idle),
        },
        TickPending::Memory { s, q, a } => match reply {
            Ok(InstanceReply::MemoryTarget(r)) => {
                let t = ControlState { memory_target_huge_frames: s.scheduler_target_huge_frames, ..st };
                tick_cpu(t, s, q, a, auto_issued(r))
            },
            _ => tick_cpu(st, s, q, a, auto_zero(Outcome::Failed)),
        },
        TickPending::Cpu { s, q, a, auto } => match reply {
            Ok(_) => {
                let t = ControlState { desired_vcpus: s.scheduler_desired_vcpus, ..st };
                tick_io(t, s, q, a, auto, cpu_result(Outcome::Issued, s.desired_vcpus, s.scheduler_desired_vcpus, s.max_vcpus))
            },
            Err(_) => tick_io(st, s, q, a, auto, cpu_result(Outcome::Failed, s.desired_vcpus, s.desired_vcpus, s.max_vcpus)),
        },
        TickPending::Eqgate { s, q, a, auto, cpu, ioa } => match reply {
            Ok(InstanceReply::EqgateDrain(r)) => (st, TickView::Done(Ok(tick_text(s, q, a, auto, cpu, ioa, eqgate_issued(r))))),
            _ => (st, TickView::Done(Ok(tick_text(s, q, a, auto, cpu, ioa, eqgate_zero(Outcome::Failed))))),
        },
    }
}

fn tick_finish(
    s: &HyperAllocRuntimeSnapshot,
    q: &HyperAllocQuery,
    a: &HyperAllocSchedulerAdaptResult,
    auto: &HyperAllocSchedulerAutoApplyResult,
    cpu: &HyperAllocSchedulerCpuAutoApplyResult,
    ioa: &HyperAllocSchedulerIoApplyResult,
    eq: &HyperAllocSchedulerEqGateAutoDrainResult,
) -> (r: String)
    ensures
        r@ == tick_text(*s, *q, *a, *auto, *cpu, *ioa, *eq),
{
    let (d, reason) = hyperalloc_policy_eval(q, s.scheduler_target_huge_frames);
    let (m, c, io) = hyperalloc_scheduler_actions(s, d);
    format_hyperalloc_scheduler_tick(s, q, d, reason, m, c, io, a, auto, cpu, ioa, eq)
}

fn tick_io_exec(
    st: &mut ControlState,
    s: &HyperAllocRuntimeSnapshot,
    q: &HyperAllocQuery,
    a: &HyperAllocSchedulerAdaptResult,
    auto: &HyperAllocSchedulerAutoApplyResult,
    cpu: &HyperAllocSchedulerCpuAutoApplyResult,
) -> (r: TickStep)
    ensures
        (*final(st), tick_view(&r)) == tick_io(*old(st), *s, *q, *a, *auto, *cpu),
{
    let (d, reason) = hyperalloc_policy_eval(q, s.scheduler_target_huge_frames);
    let (m, c, io) = hyperalloc_scheduler_actions(s, d);
    let (ioa, weight) = maybe_apply_hyperalloc_scheduler_io(s, io);
    if let Some(w) = weight {
        st.block_backend_io_weight = w;
    }
    match auto_drain_eqgate_plan(s, q) {
        Plan::Skip(o) => TickStep::Done(Ok(tick_finish(s, q, a, auto, cpu, &ioa,
            &HyperAllocSchedulerEqGateAutoDrainResult::zero(o)))),
        Plan::Issue(b) => TickStep::Call(
            InstanceCall::EqgateDrain { max_requests: b, flags: EQGATE_DRAIN_FLAG_EXECUTE },
            TickPending::Eqgate { s: *s, q: *q, a: *a, auto: *auto, cpu: *cpu, ioa },
        ),
    }
}

fn tick_cpu_exec(
    st: &mut ControlState,
    s: &HyperAllocRuntimeSnapshot,
    q: &HyperAllocQuery,
    a: &HyperAllocSchedulerAdaptResult,
    auto: &HyperAllocSchedulerAutoApplyResult,
) -> (r: TickStep)
    ensures
        (*final(st), tick_view(&r)) == tick_cpu(*old(st), *s, *q, *a, *auto),
{
    let (d, reason) = hyperalloc_policy_eval(q, s.scheduler_target_huge_frames);
    let (m, c, io) = hyperalloc_scheduler_actions(s, d);
    match auto_apply_cpu_plan(s, c) {
        Plan::Skip(o) => tick_io_exec(st, s, q, a, auto, &HyperAllocSchedulerCpuAutoApplyResult::new(
            o, s.desired_vcpus, s.desired_vcpus, s.max_vcpus)),
        Plan::Issue(n) => TickStep::Call(InstanceCall::SetVcpuCount { count: n }, TickPending::Cpu { s: *s, q: *q, a: *a, auto: *auto }),
    }
}

fn tick_memory_exec(st: &mut ControlState, s: &HyperAllocRuntimeSnapshot, q: &HyperAllocQuery, a: &HyperAllocSchedulerAdaptResult) -> (r: TickStep)
    ensures
        (*final(st), tick_view(&r)) == tick_memory(*old(st), *s, *q, *a),
{
    let (d, reason) = hyperalloc_policy_eval(q, s.scheduler_target_huge_frames);
    let (m, c, io) = hyperalloc_scheduler_actions(s, d);
    match auto_apply_memory_plan(s, reason, m) {
        Plan::Skip(o) => tick_cpu_exec(st, s, q, a, &HyperAllocSchedulerAutoApplyResult::zero(o)),
        Plan::Issue(t) => TickStep::Call(
            InstanceCall::MemoryTarget { target_huge_frames: t, timeout_ms: HYPERALLOC_MEMORY_TARGET_TIMEOUT_MS },
            TickPending::Memory { s: *s, q: *q, a: *a },
        ),
    }
}

/// The next step of a scheduler tick (see [`tick_resume`]).
pub fn resume_scheduler_tick(st: &mut ControlState, p: TickPending, reply: Result<InstanceReply, String>, now: u64) -> (r: TickStep)
    requires
        reply matches Ok(x) ==> tick_fits(p, x),
    ensures
        (*final(st), tick_view(&r)) == tick_resume(*old(st), p, reply_view(&reply), now),
{
    match p {
        TickPending::Query { s } => match reply {
            Err(e) => TickStep::Done(Err(e)),
            Ok(InstanceReply::Query(q)) => {
                let a = maybe_adapt_hyperalloc_scheduler_goals(st, &s, &q);
                let s2 = if a.result == Outcome::Updated {
                    hyperalloc_runtime_snapshot(st, now)
                } else {
                    s
                };
                tick_memory_exec(st, &s2, &q, &a)
            },
            Ok(_) => TickStep::Idle,
        },
        TickPending::Memory { s, q, a } => match reply {
            Ok(InstanceReply::MemoryTarget(r)) => {
                st.memory_target_huge_frames = s.scheduler_target_huge_frames;
                tick_cpu_exec(st, &s, &q, &a, &HyperAllocSchedulerAutoApplyResult {
                    result: Outcome::Issued,
                    sequence: r.sequence,
                    status: r.status,
                    target_pages: r.target_pages,
                    timeout_ms: r.timeout_ms,
                })
            },
            _ => tick_cpu_exec(st, &s, &q, &a, &HyperAllocSchedulerAutoApplyResult::zero(Outcome::Failed)),
        },
        TickPending::Cpu { s, q, a, auto } => match reply {
            Ok(_) => {
                st.desired_vcpus = s.scheduler_desired_vcpus;
                tick_io_exec(st, &s, &q, &a, &auto, &HyperAllocSchedulerCpuAutoApplyResult::new(
                    Outcome::Issued, s.desired_vcpus, s.scheduler_desired_vcpus, s.max_vcpus))
            },
            Err(_) => tick_io_exec(st, &s, &q, &a, &auto, &HyperAllocSchedulerCpuAutoApplyResult::new(
                Outcome::Failed, s.desired_vcpus, s.desired_vcpus, s.max_vcpus)),
        },
        TickPending::Eqgate { s, q, a, auto, cpu, ioa } => match reply {
            Ok(InstanceReply::EqgateDrain(r)) => TickStep::Done(Ok(tick_finish(&s, &q, &a, &auto, &cpu, &ioa,
                &HyperAllocSchedulerEqGateAutoDrainResult::issued(&r)))),
            _ => TickStep::Done(Ok(tick_finish(&s, &q, &a, &auto, &cpu, &ioa,
                &HyperAllocSchedulerEqGateAutoDrainResult::zero(Outcome::Failed)))),
        },
    }
}

/// Whether a pending tick fits the state it will resume on: the snapshot
/// it carries agrees with the state on the vCPU limit, and its scheduler
/// settings are valid ones.
pub open spec fn tick_pending_ok(st: ControlState, p: TickPending) -> bool {
    match p {
        TickPending::Query { s } => {
            &&& s.max_vcpus == st.max_vcpus
            &&& 1 <= s.scheduler_desired_vcpus <= st.max_vcpus
            &&& s.scheduler_target_huge_frames != 0
            &&& s.scheduler_block_io_weight <= HYPERALLOC_SCHEDULER_MAX_BLOCK_IO_WEIGHT
        },
        TickPending::Memory { s, .. } => 1 <= s.scheduler_desired_vcpus <= st.max_vcpus,
        TickPending::Cpu { s, .. } => 1 <= s.scheduler_desired_vcpus <= st.max_vcpus,
        TickPending::Eqgate { s, .. } => 1 <= s.scheduler_desired_vcpus <= st.max_vcpus,
    }
}

/// Whether a tick step leaves a valid state and, when it waits on a call,
/// a pending tick that fits it.
pub open spec fn tick_wf(r: (ControlState, TickView)) -> bool {
    &&& control_wf(r.0)
    &&& (r.1 matches TickView::Call(_, p) ==> tick_pending_ok(r.0, p))
}

/// Scheduler ticks keep the control state valid, whatever the instance
/// answers: the poll that starts a tick, and each step resumed with a
/// reply, including the adaptive changes of the goals (the memory target
/// stays nonzero, the vCPU count within `1..=max_vcpus`, the VFIO queue
/// goal within its cap).
pub proof fn lemma_scheduler_poll_keeps_wf(st: ControlState, now: u64)
    requires
        control_wf(st),
    ensures
        tick_wf(scheduler_poll(st, now)),
{
}

/// Resuming a scheduler tick with whatever the instance answered keeps the
/// control state valid, when the step resumed fits the state (see
/// [`lemma_scheduler_poll_keeps_wf`]).
#[verifier::spinoff_prover]
#[verifier::rlimit(80)]
pub proof fn lemma_tick_resume_keeps_wf(st: ControlState, p: TickPending, reply: Result<InstanceReply, Seq<char>>, now: u64)
    requires
        control_wf(st),
        tick_pending_ok(st, p),
    ensures
        tick_wf(tick_resume(st, p, reply, now)),
{
    match p {
        TickPending::Query { s } => {
            if let Ok(InstanceReply::Query(q)) = reply {
                let (t, a) = adapt(st, s, q);
                assert(control_wf(t));
                let s2 = if a.result == Outcome::Updated { snapshot(t, now) } else { s };
                lemma_tick_memory_wf(t, s2, q, a);
            }
        },
        TickPending::Memory { s, q, a } => {
            match reply {
                Ok(InstanceReply::MemoryTarget(r)) => {
                    let t = ControlState { memory_target_huge_frames: s.scheduler_target_huge_frames, ..st };
                    lemma_tick_cpu_wf(t, s, q, a, auto_issued(r));
                },
                _ => lemma_tick_cpu_wf(st, s, q, a, auto_zero(Outcome::Failed)),
            }
        },
        TickPending::Cpu { s, q, a, auto } => {
            match reply {
                Ok(_) => {
                    let t = ControlState { desired_vcpus: s.scheduler_desired_vcpus, ..st };
                    lemma_tick_io_wf(t, s, q, a, auto, cpu_result(Outcome::Issued, s.desired_vcpus, s.scheduler_desired_vcpus, s.max_vcpus));
                },
                Err(_) => lemma_tick_io_wf(st, s, q, a, auto, cpu_result(Outcome::Failed, s.desired_vcpus, s.desired_vcpus, s.max_vcpus)),
            }
        },
        TickPending::Eqgate { .. } => {},
    }
}

proof fn lemma_tick_io_wf(
    st: ControlState,
    s: HyperAllocRuntimeSnapshot,
    q: HyperAllocQuery,
    a: HyperAllocSchedulerAdaptResult,
    auto: HyperAllocSchedulerAutoApplyResult,
    cpu: HyperAllocSchedulerCpuAutoApplyResult,
)
    requires
        control_wf(st),
        1 <= s.scheduler_desired_vcpus <= st.max_vcpus,
    ensures
        tick_wf(tick_io(st, s, q, a, auto, cpu)),
{
}

proof fn lemma_tick_cpu_wf(
    st: ControlState,
    s: HyperAllocRuntimeSnapshot,
    q: HyperAllocQuery,
    a: HyperAllocSchedulerAdaptResult,
    auto: HyperAllocSchedulerAutoApplyResult,
)
    requires
        control_wf(st),
        1 <= s.scheduler_desired_vcpus <= st.max_vcpus,
    ensures
        tick_wf(tick_cpu(st, s, q, a, auto)),
{
    let (d, reason) = policy_eval(q, s.scheduler_target_huge_frames);
    let (m, c, io) = scheduler_actions(s, d);
    match auto_cpu_plan(s, c) {
        Plan::Skip(o) => lemma_tick_io_wf(st, s, q, a, auto, cpu_result(o, s.desired_vcpus, s.desired_vcpus, s.max_vcpus)),
        Plan::Issue(_) => {},
    }
}

proof fn lemma_tick_memory_wf(st: ControlState, s: HyperAllocRuntimeSnapshot, q: HyperAllocQuery, a: HyperAllocSchedulerAdaptResult)
    requires
        control_wf(st),
        1 <= s.scheduler_desired_vcpus <= st.max_vcpus,
    ensures
        tick_wf(tick_memory(st, s, q, a)),
{
    let (d, reason) = policy_eval(q, s.scheduler_target_huge_frames);
    let (m, c, io) = scheduler_actions(s, d);
    match auto_memory_plan(s, reason, m) {
        Plan::Skip(o) => lemma_tick_cpu_wf(st, s, q, a, auto_zero(o)),
        Plan::Issue(_) => {},
    }
}

} // verus!
