//! The answers of the control socket: one line per command, built from the
//! runtime snapshot or from what the hypervisor answered.
use vstd::prelude::*;
use crate::hyperalloc::{
    HyperAllocQuery, Decision, Reason, memory_effect, hyperalloc_memory_effect,
    spec_memory_effect_name, memory_effect_name, spec_decision_name, decision_name,
    spec_reason_name, reason_name, spec_vfio_dma_op_name, vfio_dma_op_name,
    spec_vfio_dma_status_name, vfio_dma_status_name,
};
use crate::report::{Field, FieldValue, field_text, fields_text, value_text, push_fields, push_value};
use crate::scheduler::{
    HyperAllocRuntimeSnapshot, MemoryAction, CpuAction, IoAction, Outcome, io_action,
    hyperalloc_scheduler_io_action, spec_io_action_name, io_action_name, io_backend,
    hyperalloc_scheduler_io_backend, io_effect, hyperalloc_scheduler_io_effect, eqgate_action,
    hyperalloc_scheduler_eqgate_action, spec_eqgate_action_name, eqgate_action_name,
    spec_memory_action_name, memory_action_name, spec_cpu_action_name, cpu_action_name,
    spec_outcome_name, outcome_name, MemoryTargetReply, EqGateDrainReply,
    HyperAllocSchedulerMemoryApplyResult, HyperAllocSchedulerCpuApplyResult,
    HyperAllocSchedulerEqGateAutoDrainResult,
};
use crate::text::push_str;

verus! {

/// What the hypervisor answers to a debug reclaim of one frame.
#[derive(Clone, Copy, Debug)]
pub struct DebugReclaimReply {
    pub instance_id: u64,
    pub flags: u32,
    pub zone_id: u32,
    pub frame_gpa: u64,
    pub frame_len: u64,
    pub installed_after: u64,
    pub soft_after: u64,
    pub hard_after: u64,
    pub physical_releases_after: u64,
    pub physically_released_after: u64,
    pub last_physical_release_hpa: u64,
    pub result_errno: i32,
}

/// What the hypervisor answers to a zap of guest RAM mappings.
#[derive(Clone, Copy, Debug)]
pub struct MmapZapReply {
    pub instance_id: u64,
    pub gpa: u64,
    pub len: u64,
    pub zapped_vmas: u64,
    pub zapped_bytes: u64,
    pub result_errno: i32,
}

/// What the hypervisor answers to a debug EqGate enqueue.
#[derive(Clone, Copy, Debug)]
pub struct EqgateEnqueueReply {
    pub instance_id: u64,
    pub vcpu_id: u32,
    pub zone_id: u32,
    pub frame_gpa: u64,
    pub frame_len: u64,
    pub entry_flags: u64,
    pub target_pcpu: u32,
    pub sequence: u64,
    pub pending_before: u64,
    pub pending_after: u64,
    pub submitted_after: u64,
    pub dropped_after: u64,
    pub result_errno: i32,
}

/// A VFIO DMA operation as the hypervisor hands it back.
#[derive(Clone, Copy, Debug)]
pub struct VfioDmaReply {
    pub sequence: u64,
    pub op: u32,
    pub status: u32,
    pub frame_gpa: u64,
    pub frame_hpa: u64,
    pub iova: u64,
    pub size: u64,
    pub result_errno: i32,
}

/// A line that starts with a field rather than a label: `key=value` and then
/// ` key=value` for each further field.
pub open spec fn bare_text(first: Field, rest: Seq<Field>) -> Seq<char> {
    first.key@ + seq!['='] + value_text(first.value) + fields_text(rest)
}

pub fn render_bare(first: Field, rest: &Vec<Field>) -> (s: String)
    ensures
        s@ == bare_text(first, rest@),
{
    let mut s = String::new();
    push_str(&mut s, first.key);
    push_str(&mut s, "=");
    proof {
        reveal_strlit("=");
    }
    push_value(&mut s, first.value);
    push_fields(&mut s, rest);
    assert(s@ =~= bare_text(first, rest@));
    s
}

pub open spec fn policy_set_fields_part0(s: HyperAllocRuntimeSnapshot) -> Seq<Field> {
    seq![
        Field { key: "policy_enabled", value: FieldValue::Dec(s.policy_enabled as u64) },
        Field { key: "policy_target_huge_frames", value: FieldValue::Dec(s.policy_target_huge_frames) },
        Field { key: "policy_interval_ms", value: FieldValue::Dec(s.policy_interval_ms) },
        Field { key: "policy_last_issued_seq", value: FieldValue::Dec(s.policy_last_issued_seq) },
        Field { key: "policy_last_completed_seq", value: FieldValue::Dec(s.policy_last_completed_seq) },
    ]
}

/// The fields of a `policy_set` answer.
pub open spec fn policy_set_fields(s: HyperAllocRuntimeSnapshot) -> Seq<Field> {
    policy_set_fields_part0(s)
}

fn push_policy_set_fields_part0(v: &mut Vec<Field>, s: &HyperAllocRuntimeSnapshot)
    ensures
        final(v)@ == old(v)@ + policy_set_fields_part0(*s),
{
    v.push(Field { key: "policy_enabled", value: FieldValue::Dec(s.policy_enabled as u64) });
    v.push(Field { key: "policy_target_huge_frames", value: FieldValue::Dec(s.policy_target_huge_frames) });
    v.push(Field { key: "policy_interval_ms", value: FieldValue::Dec(s.policy_interval_ms) });
    v.push(Field { key: "policy_last_issued_seq", value: FieldValue::Dec(s.policy_last_issued_seq) });
    v.push(Field { key: "policy_last_completed_seq", value: FieldValue::Dec(s.policy_last_completed_seq) });
    assert(final(v)@ =~= old(v)@ + policy_set_fields_part0(*s));
}

fn policy_set_fields_vec(s: &HyperAllocRuntimeSnapshot) -> (v: Vec<Field>)
    ensures
        v@ == policy_set_fields(*s),
{
    let mut v: Vec<Field> = Vec::new();
    push_policy_set_fields_part0(&mut v, s);
    assert(v@ =~= policy_set_fields(*s));
    v
}

pub open spec fn metrics_set_fields_part0(s: HyperAllocRuntimeSnapshot) -> Seq<Field> {
    seq![
        Field { key: "metrics_enabled", value: FieldValue::Dec(s.metrics_enabled as u64) },
        Field { key: "metrics_interval_ms", value: FieldValue::Dec(s.metrics_interval_ms) },
        Field { key: "metrics_elapsed_ms", value: FieldValue::Dec(s.metrics_elapsed_ms) },
    ]
}

/// The fields of a `metrics_set` answer.
pub open spec fn metrics_set_fields(s: HyperAllocRuntimeSnapshot) -> Seq<Field> {
    metrics_set_fields_part0(s)
}

fn push_metrics_set_fields_part0(v: &mut Vec<Field>, s: &HyperAllocRuntimeSnapshot)
    ensures
        final(v)@ == old(v)@ + metrics_set_fields_part0(*s),
{
    v.push(Field { key: "metrics_enabled", value: FieldValue::Dec(s.metrics_enabled as u64) });
    v.push(Field { key: "metrics_interval_ms", value: FieldValue::Dec(s.metrics_interval_ms) });
    v.push(Field { key: "metrics_elapsed_ms", value: FieldValue::Dec(s.metrics_elapsed_ms) });
    assert(final(v)@ =~= old(v)@ + metrics_set_fields_part0(*s));
}

fn metrics_set_fields_vec(s: &HyperAllocRuntimeSnapshot) -> (v: Vec<Field>)
    ensures
        v@ == metrics_set_fields(*s),
{
    let mut v: Vec<Field> = Vec::new();
    push_metrics_set_fields_part0(&mut v, s);
    assert(v@ =~= metrics_set_fields(*s));
    v
}

pub open spec fn eval_set_fields_part0(s: HyperAllocRuntimeSnapshot) -> Seq<Field> {
    seq![
        Field { key: "eval_enabled", value: FieldValue::Dec(s.evaluator_enabled as u64) },
        Field { key: "eval_interval_ms", value: FieldValue::Dec(s.evaluator_interval_ms) },
        Field { key: "eval_elapsed_ms", value: FieldValue::Dec(s.evaluator_elapsed_ms) },
        Field { key: "eval_target_huge_frames", value: FieldValue::Dec(s.evaluator_target_huge_frames) },
    ]
}

/// The fields of an `eval_set` answer.
pub open spec fn eval_set_fields(s: HyperAllocRuntimeSnapshot) -> Seq<Field> {
    eval_set_fields_part0(s)
}

fn push_eval_set_fields_part0(v: &mut Vec<Field>, s: &HyperAllocRuntimeSnapshot)
    ensures
        final(v)@ == old(v)@ + eval_set_fields_part0(*s),
{
    v.push(Field { key: "eval_enabled", value: FieldValue::Dec(s.evaluator_enabled as u64) });
    v.push(Field { key: "eval_interval_ms", value: FieldValue::Dec(s.evaluator_interval_ms) });
    v.push(Field { key: "eval_elapsed_ms", value: FieldValue::Dec(s.evaluator_elapsed_ms) });
    v.push(Field { key: "eval_target_huge_frames", value: FieldValue::Dec(s.evaluator_target_huge_frames) });
    assert(final(v)@ =~= old(v)@ + eval_set_fields_part0(*s));
}

fn eval_set_fields_vec(s: &HyperAllocRuntimeSnapshot) -> (v: Vec<Field>)
    ensures
        v@ == eval_set_fields(*s),
{
    let mut v: Vec<Field> = Vec::new();
    push_eval_set_fields_part0(&mut v, s);
    assert(v@ =~= eval_set_fields(*s));
    v
}

pub open spec fn scheduler_set_fields_part0(s: HyperAllocRuntimeSnapshot) -> Seq<Field> {
    seq![
        Field { key: "scheduler_enabled", value: FieldValue::Dec(s.scheduler_enabled as u64) },
        Field { key: "scheduler_interval_ms", value: FieldValue::Dec(s.scheduler_interval_ms) },
        Field { key: "scheduler_elapsed_ms", value: FieldValue::Dec(s.scheduler_elapsed_ms) },
        Field { key: "scheduler_target_huge_frames", value: FieldValue::Dec(s.scheduler_target_huge_frames) },
        Field { key: "scheduler_desired_vcpus", value: FieldValue::Dec(s.scheduler_desired_vcpus as u64) },
        Field { key: "scheduler_vfio_queue_goal", value: FieldValue::Dec(s.scheduler_vfio_queue_goal as u64) },
        Field { key: "scheduler_block_io_weight", value: FieldValue::Dec(s.scheduler_block_io_weight as u64) },
        Field { key: "scheduler_eqgate_drain_budget", value: FieldValue::Dec(s.scheduler_eqgate_drain_budget as u64) },
        Field { key: "scheduler_auto_apply", value: FieldValue::Dec(s.scheduler_auto_apply as u64) },
        Field { key: "scheduler_memory_auto_apply", value: FieldValue::Dec(s.scheduler_memory_auto_apply as u64) },
        Field { key: "scheduler_cpu_auto_apply", value: FieldValue::Dec(s.scheduler_cpu_auto_apply as u64) },
        Field { key: "scheduler_eqgate_auto_drain", value: FieldValue::Dec(s.scheduler_eqgate_auto_drain as u64) },
        Field { key: "scheduler_adaptive", value: FieldValue::Dec(s.scheduler_adaptive as u64) },
        Field { key: "scheduler_adaptive_vfio_queue_cap", value: FieldValue::Dec(s.scheduler_adaptive_vfio_queue_cap as u64) },
    ]
}

/// The fields of a `scheduler_set` answer.
pub open spec fn scheduler_set_fields(s: HyperAllocRuntimeSnapshot) -> Seq<Field> {
    scheduler_set_fields_part0(s)
}

fn push_scheduler_set_fields_part0(v: &mut Vec<Field>, s: &HyperAllocRuntimeSnapshot)
    ensures
        final(v)@ == old(v)@ + scheduler_set_fields_part0(*s),
{
    v.push(Field { key: "scheduler_enabled", value: FieldValue::Dec(s.scheduler_enabled as u64) });
    v.push(Field { key: "scheduler_interval_ms", value: FieldValue::Dec(s.scheduler_interval_ms) });
    v.push(Field { key: "scheduler_elapsed_ms", value: FieldValue::Dec(s.scheduler_elapsed_ms) });
    v.push(Field { key: "scheduler_target_huge_frames", value: FieldValue::Dec(s.scheduler_target_huge_frames) });
    v.push(Field { key: "scheduler_desired_vcpus", value: FieldValue::Dec(s.scheduler_desired_vcpus as u64) });
    v.push(Field { key: "scheduler_vfio_queue_goal", value: FieldValue::Dec(s.scheduler_vfio_queue_goal as u64) });
    v.push(Field { key: "scheduler_block_io_weight", value: FieldValue::Dec(s.scheduler_block_io_weight as u64) });
    v.push(Field { key: "scheduler_eqgate_drain_budget", value: FieldValue::Dec(s.scheduler_eqgate_drain_budget as u64) });
    v.push(Field { key: "scheduler_auto_apply", value: FieldValue::Dec(s.scheduler_auto_apply as u64) });
    v.push(Field { key: "scheduler_memory_auto_apply", value: FieldValue::Dec(s.scheduler_memory_auto_apply as u64) });
    v.push(Field { key: "scheduler_cpu_auto_apply", value: FieldValue::Dec(s.scheduler_cpu_auto_apply as u64) });
    v.push(Field { key: "scheduler_eqgate_auto_drain", value: FieldValue::Dec(s.scheduler_eqgate_auto_drain as u64) });
    v.push(Field { key: "scheduler_adaptive", value: FieldValue::Dec(s.scheduler_adaptive as u64) });
    v.push(Field { key: "scheduler_adaptive_vfio_queue_cap", value: FieldValue::Dec(s.scheduler_adaptive_vfio_queue_cap as u64) });
    assert(final(v)@ =~= old(v)@ + scheduler_set_fields_part0(*s));
}

fn scheduler_set_fields_vec(s: &HyperAllocRuntimeSnapshot) -> (v: Vec<Field>)
    ensures
        v@ == scheduler_set_fields(*s),
{
    let mut v: Vec<Field> = Vec::new();
    push_scheduler_set_fields_part0(&mut v, s);
    assert(v@ =~= scheduler_set_fields(*s));
    v
}

pub open spec fn scheduler_status_fields_part0(s: HyperAllocRuntimeSnapshot) -> Seq<Field> {
    seq![
        Field { key: "scheduler_enabled", value: FieldValue::Dec(s.scheduler_enabled as u64) },
        Field { key: "scheduler_interval_ms", value: FieldValue::Dec(s.scheduler_interval_ms) },
        Field { key: "scheduler_elapsed_ms", value: FieldValue::Dec(s.scheduler_elapsed_ms) },
        Field { key: "scheduler_target_huge_frames", value: FieldValue::Dec(s.scheduler_target_huge_frames) },
        Field { key: "scheduler_desired_vcpus", value: FieldValue::Dec(s.scheduler_desired_vcpus as u64) },
        Field { key: "scheduler_vfio_queue_goal", value: FieldValue::Dec(s.scheduler_vfio_queue_goal as u64) },
        Field { key: "scheduler_block_io_weight", value: FieldValue::Dec(s.scheduler_block_io_weight as u64) },
        Field { key: "scheduler_eqgate_drain_budget", value: FieldValue::Dec(s.scheduler_eqgate_drain_budget as u64) },
        Field { key: "scheduler_auto_apply", value: FieldValue::Dec(s.scheduler_auto_apply as u64) },
        Field { key: "scheduler_memory_auto_apply", value: FieldValue::Dec(s.scheduler_memory_auto_apply as u64) },
        Field { key: "scheduler_cpu_auto_apply", value: FieldValue::Dec(s.scheduler_cpu_auto_apply as u64) },
        Field { key: "scheduler_eqgate_auto_drain", value: FieldValue::Dec(s.scheduler_eqgate_auto_drain as u64) },
        Field { key: "scheduler_adaptive", value: FieldValue::Dec(s.scheduler_adaptive as u64) },
        Field { key: "scheduler_adaptive_vfio_queue_cap", value: FieldValue::Dec(s.scheduler_adaptive_vfio_queue_cap as u64) },
        Field { key: "io_action", value: FieldValue::Text(spec_io_action_name(io_action(s.scheduler_vfio_queue_goal, s.scheduler_block_io_weight))) },
        Field { key: "scheduler_io_backend", value: FieldValue::Text(io_backend(s.has_block_backend, s.has_vfio_backend)) },
        Field { key: "io_effect", value: FieldValue::Text(io_effect(s.scheduler_vfio_queue_goal, s.scheduler_block_io_weight, s.has_block_backend, s.has_vfio_backend)) },
    ]
}

/// The fields of a `scheduler_status` answer.
pub open spec fn scheduler_status_fields(s: HyperAllocRuntimeSnapshot) -> Seq<Field> {
    scheduler_status_fields_part0(s)
}

fn push_scheduler_status_fields_part0(v: &mut Vec<Field>, s: &HyperAllocRuntimeSnapshot)
    ensures
        final(v)@ == old(v)@ + scheduler_status_fields_part0(*s),
{
    v.push(Field { key: "scheduler_enabled", value: FieldValue::Dec(s.scheduler_enabled as u64) });
    v.push(Field { key: "scheduler_interval_ms", value: FieldValue::Dec(s.scheduler_interval_ms) });
    v.push(Field { key: "scheduler_elapsed_ms", value: FieldValue::Dec(s.scheduler_elapsed_ms) });
    v.push(Field { key: "scheduler_target_huge_frames", value: FieldValue::Dec(s.scheduler_target_huge_frames) });
    v.push(Field { key: "scheduler_desired_vcpus", value: FieldValue::Dec(s.scheduler_desired_vcpus as u64) });
    v.push(Field { key: "scheduler_vfio_queue_goal", value: FieldValue::Dec(s.scheduler_vfio_queue_goal as u64) });
    v.push(Field { key: "scheduler_block_io_weight", value: FieldValue::Dec(s.scheduler_block_io_weight as u64) });
    v.push(Field { key: "scheduler_eqgate_drain_budget", value: FieldValue::Dec(s.scheduler_eqgate_drain_budget as u64) });
    v.push(Field { key: "scheduler_auto_apply", value: FieldValue::Dec(s.scheduler_auto_apply as u64) });
    v.push(Field { key: "scheduler_memory_auto_apply", value: FieldValue::Dec(s.scheduler_memory_auto_apply as u64) });
    v.push(Field { key: "scheduler_cpu_auto_apply", value: FieldValue::Dec(s.scheduler_cpu_auto_apply as u64) });
    v.push(Field { key: "scheduler_eqgate_auto_drain", value: FieldValue::Dec(s.scheduler_eqgate_auto_drain as u64) });
    v.push(Field { key: "scheduler_adaptive", value: FieldValue::Dec(s.scheduler_adaptive as u64) });
    v.push(Field { key: "scheduler_adaptive_vfio_queue_cap", value: FieldValue::Dec(s.scheduler_adaptive_vfio_queue_cap as u64) });
    v.push(Field { key: "io_action", value: FieldValue::Text(io_action_name(hyperalloc_scheduler_io_action(s.scheduler_vfio_queue_goal, s.scheduler_block_io_weight))) });
    v.push(Field { key: "scheduler_io_backend", value: FieldValue::Text(hyperalloc_scheduler_io_backend(s.has_block_backend, s.has_vfio_backend)) });
    v.push(Field { key: "io_effect", value: FieldValue::Text(hyperalloc_scheduler_io_effect(s.scheduler_vfio_queue_goal, s.scheduler_block_io_weight, s.has_block_backend, s.has_vfio_backend)) });
    assert(final(v)@ =~= old(v)@ + scheduler_status_fields_part0(*s));
}

fn scheduler_status_fields_vec(s: &HyperAllocRuntimeSnapshot) -> (v: Vec<Field>)
    ensures
        v@ == scheduler_status_fields(*s),
{
    let mut v: Vec<Field> = Vec::new();
    push_scheduler_status_fields_part0(&mut v, s);
    assert(v@ =~= scheduler_status_fields(*s));
    v
}

pub open spec fn scheduler_io_set_fields_part0(s: HyperAllocRuntimeSnapshot) -> Seq<Field> {
    seq![
        Field { key: "scheduler_enabled", value: FieldValue::Dec(s.scheduler_enabled as u64) },
        Field { key: "scheduler_vfio_queue_goal", value: FieldValue::Dec(s.scheduler_vfio_queue_goal as u64) },
        Field { key: "scheduler_block_io_weight", value: FieldValue::Dec(s.scheduler_block_io_weight as u64) },
        Field { key: "io_action", value: FieldValue::Text(spec_io_action_name(io_action(s.scheduler_vfio_queue_goal, s.scheduler_block_io_weight))) },
        Field { key: "scheduler_interval_ms", value: FieldValue::Dec(s.scheduler_interval_ms) },
        Field { key: "scheduler_elapsed_ms", value: FieldValue::Dec(s.scheduler_elapsed_ms) },
        Field { key: "scheduler_target_huge_frames", value: FieldValue::Dec(s.scheduler_target_huge_frames) },
        Field { key: "scheduler_desired_vcpus", value: FieldValue::Dec(s.scheduler_desired_vcpus as u64) },
        Field { key: "scheduler_io_backend", value: FieldValue::Text(io_backend(s.has_block_backend, s.has_vfio_backend)) },
        Field { key: "io_effect", value: FieldValue::Text(io_effect(s.scheduler_vfio_queue_goal, s.scheduler_block_io_weight, s.has_block_backend, s.has_vfio_backend)) },
    ]
}

/// The fields of a `scheduler_io_set` answer.
pub open spec fn scheduler_io_set_fields(s: HyperAllocRuntimeSnapshot) -> Seq<Field> {
    scheduler_io_set_fields_part0(s)
}

fn push_scheduler_io_set_fields_part0(v: &mut Vec<Field>, s: &HyperAllocRuntimeSnapshot)
    ensures
        final(v)@ == old(v)@ + scheduler_io_set_fields_part0(*s),
{
    v.push(Field { key: "scheduler_enabled", value: FieldValue::Dec(s.scheduler_enabled as u64) });
    v.push(Field { key: "scheduler_vfio_queue_goal", value: FieldValue::Dec(s.scheduler_vfio_queue_goal as u64) });
    v.push(Field { key: "scheduler_block_io_weight", value: FieldValue::Dec(s.scheduler_block_io_weight as u64) });
    v.push(Field { key: "io_action", value: FieldValue::Text(io_action_name(hyperalloc_scheduler_io_action(s.scheduler_vfio_queue_goal, s.scheduler_block_io_weight))) });
    v.push(Field { key: "scheduler_interval_ms", value: FieldValue::Dec(s.scheduler_interval_ms) });
    v.push(Field { key: "scheduler_elapsed_ms", value: FieldValue::Dec(s.scheduler_elapsed_ms) });
    v.push(Field { key: "scheduler_target_huge_frames", value: FieldValue::Dec(s.scheduler_target_huge_frames) });
    v.push(Field { key: "scheduler_desired_vcpus", value: FieldValue::Dec(s.scheduler_desired_vcpus as u64) });
    v.push(Field { key: "scheduler_io_backend", value: FieldValue::Text(hyperalloc_scheduler_io_backend(s.has_block_backend, s.has_vfio_backend)) });
    v.push(Field { key: "io_effect", value: FieldValue::Text(hyperalloc_scheduler_io_effect(s.scheduler_vfio_queue_goal, s.scheduler_block_io_weight, s.has_block_backend, s.has_vfio_backend)) });
    assert(final(v)@ =~= old(v)@ + scheduler_io_set_fields_part0(*s));
}

fn scheduler_io_set_fields_vec(s: &HyperAllocRuntimeSnapshot) -> (v: Vec<Field>)
    ensures
        v@ == scheduler_io_set_fields(*s),
{
    let mut v: Vec<Field> = Vec::new();
    push_scheduler_io_set_fields_part0(&mut v, s);
    assert(v@ =~= scheduler_io_set_fields(*s));
    v
}

pub open spec fn scheduler_auto_set_fields_part0(s: HyperAllocRuntimeSnapshot) -> Seq<Field> {
    seq![
        Field { key: "scheduler_enabled", value: FieldValue::Dec(s.scheduler_enabled as u64) },
        Field { key: "scheduler_auto_apply", value: FieldValue::Dec(s.scheduler_auto_apply as u64) },
        Field { key: "scheduler_memory_auto_apply", value: FieldValue::Dec(s.scheduler_memory_auto_apply as u64) },
        Field { key: "scheduler_cpu_auto_apply", value: FieldValue::Dec(s.scheduler_cpu_auto_apply as u64) },
        Field { key: "scheduler_eqgate_auto_drain", value: FieldValue::Dec(s.scheduler_eqgate_auto_drain as u64) },
        Field { key: "scheduler_interval_ms", value: FieldValue::Dec(s.scheduler_interval_ms) },
        Field { key: "scheduler_elapsed_ms", value: FieldValue::Dec(s.scheduler_elapsed_ms) },
        Field { key: "scheduler_target_huge_frames", value: FieldValue::Dec(s.scheduler_target_huge_frames) },
        Field { key: "scheduler_desired_vcpus", value: FieldValue::Dec(s.scheduler_desired_vcpus as u64) },
    ]
}

/// The fields of the answers to the memory and CPU auto-apply settings.
pub open spec fn scheduler_auto_set_fields(s: HyperAllocRuntimeSnapshot) -> Seq<Field> {
    scheduler_auto_set_fields_part0(s)
}

fn push_scheduler_auto_set_fields_part0(v: &mut Vec<Field>, s: &HyperAllocRuntimeSnapshot)
    ensures
        final(v)@ == old(v)@ + scheduler_auto_set_fields_part0(*s),
{
    v.push(Field { key: "scheduler_enabled", value: FieldValue::Dec(s.scheduler_enabled as u64) });
    v.push(Field { key: "scheduler_auto_apply", value: FieldValue::Dec(s.scheduler_auto_apply as u64) });
    v.push(Field { key: "scheduler_memory_auto_apply", value: FieldValue::Dec(s.scheduler_memory_auto_apply as u64) });
    v.push(Field { key: "scheduler_cpu_auto_apply", value: FieldValue::Dec(s.scheduler_cpu_auto_apply as u64) });
    v.push(Field { key: "scheduler_eqgate_auto_drain", value: FieldValue::Dec(s.scheduler_eqgate_auto_drain as u64) });
    v.push(Field { key: "scheduler_interval_ms", value: FieldValue::Dec(s.scheduler_interval_ms) });
    v.push(Field { key: "scheduler_elapsed_ms", value: FieldValue::Dec(s.scheduler_elapsed_ms) });
    v.push(Field { key: "scheduler_target_huge_frames", value: FieldValue::Dec(s.scheduler_target_huge_frames) });
    v.push(Field { key: "scheduler_desired_vcpus", value: FieldValue::Dec(s.scheduler_desired_vcpus as u64) });
    assert(final(v)@ =~= old(v)@ + scheduler_auto_set_fields_part0(*s));
}

fn scheduler_auto_set_fields_vec(s: &HyperAllocRuntimeSnapshot) -> (v: Vec<Field>)
    ensures
        v@ == scheduler_auto_set_fields(*s),
{
    let mut v: Vec<Field> = Vec::new();
    push_scheduler_auto_set_fields_part0(&mut v, s);
    assert(v@ =~= scheduler_auto_set_fields(*s));
    v
}

pub open spec fn scheduler_eqgate_auto_set_fields_part0(s: HyperAllocRuntimeSnapshot) -> Seq<Field> {
    seq![
        Field { key: "scheduler_enabled", value: FieldValue::Dec(s.scheduler_enabled as u64) },
        Field { key: "scheduler_eqgate_auto_drain", value: FieldValue::Dec(s.scheduler_eqgate_auto_drain as u64) },
        Field { key: "scheduler_eqgate_drain_budget", value: FieldValue::Dec(s.scheduler_eqgate_drain_budget as u64) },
        Field { key: "scheduler_auto_apply", value: FieldValue::Dec(s.scheduler_auto_apply as u64) },
        Field { key: "scheduler_memory_auto_apply", value: FieldValue::Dec(s.scheduler_memory_auto_apply as u64) },
        Field { key: "scheduler_cpu_auto_apply", value: FieldValue::Dec(s.scheduler_cpu_auto_apply as u64) },
        Field { key: "scheduler_interval_ms", value: FieldValue::Dec(s.scheduler_interval_ms) },
        Field { key: "scheduler_elapsed_ms", value: FieldValue::Dec(s.scheduler_elapsed_ms) },
        Field { key: "scheduler_target_huge_frames", value: FieldValue::Dec(s.scheduler_target_huge_frames) },
        Field { key: "scheduler_desired_vcpus", value: FieldValue::Dec(s.scheduler_desired_vcpus as u64) },
    ]
}

/// The fields of a `scheduler_eqgate_auto_set` answer.
pub open spec fn scheduler_eqgate_auto_set_fields(s: HyperAllocRuntimeSnapshot) -> Seq<Field> {
    scheduler_eqgate_auto_set_fields_part0(s)
}

fn push_scheduler_eqgate_auto_set_fields_part0(v: &mut Vec<Field>, s: &HyperAllocRuntimeSnapshot)
    ensures
        final(v)@ == old(v)@ + scheduler_eqgate_auto_set_fields_part0(*s),
{
    v.push(Field { key: "scheduler_enabled", value: FieldValue::Dec(s.scheduler_enabled as u64) });
    v.push(Field { key: "scheduler_eqgate_auto_drain", value: FieldValue::Dec(s.scheduler_eqgate_auto_drain as u64) });
    v.push(Field { key: "scheduler_eqgate_drain_budget", value: FieldValue::Dec(s.scheduler_eqgate_drain_budget as u64) });
    v.push(Field { key: "scheduler_auto_apply", value: FieldValue::Dec(s.scheduler_auto_apply as u64) });
    v.push(Field { key: "scheduler_memory_auto_apply", value: FieldValue::Dec(s.scheduler_memory_auto_apply as u64) });
    v.push(Field { key: "scheduler_cpu_auto_apply", value: FieldValue::Dec(s.scheduler_cpu_auto_apply as u64) });
    v.push(Field { key: "scheduler_interval_ms", value: FieldValue::Dec(s.scheduler_interval_ms) });
    v.push(Field { key: "scheduler_elapsed_ms", value: FieldValue::Dec(s.scheduler_elapsed_ms) });
    v.push(Field { key: "scheduler_target_huge_frames", value: FieldValue::Dec(s.scheduler_target_huge_frames) });
    v.push(Field { key: "scheduler_desired_vcpus", value: FieldValue::Dec(s.scheduler_desired_vcpus as u64) });
    assert(final(v)@ =~= old(v)@ + scheduler_eqgate_auto_set_fields_part0(*s));
}

fn scheduler_eqgate_auto_set_fields_vec(s: &HyperAllocRuntimeSnapshot) -> (v: Vec<Field>)
    ensures
        v@ == scheduler_eqgate_auto_set_fields(*s),
{
    let mut v: Vec<Field> = Vec::new();
    push_scheduler_eqgate_auto_set_fields_part0(&mut v, s);
    assert(v@ =~= scheduler_eqgate_auto_set_fields(*s));
    v
}

pub open spec fn scheduler_adaptive_set_fields_part0(s: HyperAllocRuntimeSnapshot) -> Seq<Field> {
    seq![
        Field { key: "scheduler_enabled", value: FieldValue::Dec(s.scheduler_enabled as u64) },
        Field { key: "scheduler_adaptive", value: FieldValue::Dec(s.scheduler_adaptive as u64) },
        Field { key: "scheduler_interval_ms", value: FieldValue::Dec(s.scheduler_interval_ms) },
        Field { key: "scheduler_elapsed_ms", value: FieldValue::Dec(s.scheduler_elapsed_ms) },
        Field { key: "scheduler_target_huge_frames", value: FieldValue::Dec(s.scheduler_target_huge_frames) },
        Field { key: "scheduler_desired_vcpus", value: FieldValue::Dec(s.scheduler_desired_vcpus as u64) },
        Field { key: "scheduler_vfio_queue_goal", value: FieldValue::Dec(s.scheduler_vfio_queue_goal as u64) },
        Field { key: "scheduler_block_io_weight", value: FieldValue::Dec(s.scheduler_block_io_weight as u64) },
        Field { key: "scheduler_eqgate_drain_budget", value: FieldValue::Dec(s.scheduler_eqgate_drain_budget as u64) },
        Field { key: "scheduler_adaptive_vfio_queue_cap", value: FieldValue::Dec(s.scheduler_adaptive_vfio_queue_cap as u64) },
    ]
}

/// The fields of a `scheduler_adaptive_set` answer.
pub open spec fn scheduler_adaptive_set_fields(s: HyperAllocRuntimeSnapshot) -> Seq<Field> {
    scheduler_adaptive_set_fields_part0(s)
}

fn push_scheduler_adaptive_set_fields_part0(v: &mut Vec<Field>, s: &HyperAllocRuntimeSnapshot)
    ensures
        final(v)@ == old(v)@ + scheduler_adaptive_set_fields_part0(*s),
{
    v.push(Field { key: "scheduler_enabled", value: FieldValue::Dec(s.scheduler_enabled as u64) });
    v.push(Field { key: "scheduler_adaptive", value: FieldValue::Dec(s.scheduler_adaptive as u64) });
    v.push(Field { key: "scheduler_interval_ms", value: FieldValue::Dec(s.scheduler_interval_ms) });
    v.push(Field { key: "scheduler_elapsed_ms", value: FieldValue::Dec(s.scheduler_elapsed_ms) });
    v.push(Field { key: "scheduler_target_huge_frames", value: FieldValue::Dec(s.scheduler_target_huge_frames) });
    v.push(Field { key: "scheduler_desired_vcpus", value: FieldValue::Dec(s.scheduler_desired_vcpus as u64) });
    v.push(Field { key: "scheduler_vfio_queue_goal", value: FieldValue::Dec(s.scheduler_vfio_queue_goal as u64) });
    v.push(Field { key: "scheduler_block_io_weight", value: FieldValue::Dec(s.scheduler_block_io_weight as u64) });
    v.push(Field { key: "scheduler_eqgate_drain_budget", value: FieldValue::Dec(s.scheduler_eqgate_drain_budget as u64) });
    v.push(Field { key: "scheduler_adaptive_vfio_queue_cap", value: FieldValue::Dec(s.scheduler_adaptive_vfio_queue_cap as u64) });
    assert(final(v)@ =~= old(v)@ + scheduler_adaptive_set_fields_part0(*s));
}

fn scheduler_adaptive_set_fields_vec(s: &HyperAllocRuntimeSnapshot) -> (v: Vec<Field>)
    ensures
        v@ == scheduler_adaptive_set_fields(*s),
{
    let mut v: Vec<Field> = Vec::new();
    push_scheduler_adaptive_set_fields_part0(&mut v, s);
    assert(v@ =~= scheduler_adaptive_set_fields(*s));
    v
}

pub open spec fn policy_status_fields_part0(instance_id: u64, s: HyperAllocRuntimeSnapshot) -> Seq<Field> {
    seq![
        Field { key: "instance", value: FieldValue::Dec(instance_id) },
        Field { key: "memory_target_huge_frames", value: FieldValue::Dec(s.memory_target_huge_frames) },
        Field { key: "policy_enabled", value: FieldValue::Dec(s.policy_enabled as u64) },
        Field { key: "policy_target_huge_frames", value: FieldValue::Dec(s.policy_target_huge_frames) },
        Field { key: "policy_interval_ms", value: FieldValue::Dec(s.policy_interval_ms) },
        Field { key: "policy_elapsed_ms", value: FieldValue::Dec(s.policy_elapsed_ms) },
        Field { key: "policy_last_issued_seq", value: FieldValue::Dec(s.policy_last_issued_seq) },
        Field { key: "policy_last_completed_seq", value: FieldValue::Dec(s.policy_last_completed_seq) },
        Field { key: "metrics_enabled", value: FieldValue::Dec(s.metrics_enabled as u64) },
        Field { key: "metrics_interval_ms", value: FieldValue::Dec(s.metrics_interval_ms) },
        Field { key: "metrics_elapsed_ms", value: FieldValue::Dec(s.metrics_elapsed_ms) },
        Field { key: "evaluator_enabled", value: FieldValue::Dec(s.evaluator_enabled as u64) },
        Field { key: "evaluator_interval_ms", value: FieldValue::Dec(s.evaluator_interval_ms) },
        Field { key: "evaluator_elapsed_ms", value: FieldValue::Dec(s.evaluator_elapsed_ms) },
        Field { key: "evaluator_target_huge_frames", value: FieldValue::Dec(s.evaluator_target_huge_frames) },
    ]
}

/// The fields of a `policy_status` answer.
pub open spec fn policy_status_fields(instance_id: u64, s: HyperAllocRuntimeSnapshot) -> Seq<Field> {
    policy_status_fields_part0(instance_id, s)
}

fn push_policy_status_fields_part0(v: &mut Vec<Field>, instance_id: u64, s: &HyperAllocRuntimeSnapshot)
    ensures
        final(v)@ == old(v)@ + policy_status_fields_part0(instance_id, *s),
{
    v.push(Field { key: "instance", value: FieldValue::Dec(instance_id) });
    v.push(Field { key: "memory_target_huge_frames", value: FieldValue::Dec(s.memory_target_huge_frames) });
    v.push(Field { key: "policy_enabled", value: FieldValue::Dec(s.policy_enabled as u64) });
    v.push(Field { key: "policy_target_huge_frames", value: FieldValue::Dec(s.policy_target_huge_frames) });
    v.push(Field { key: "policy_interval_ms", value: FieldValue::Dec(s.policy_interval_ms) });
    v.push(Field { key: "policy_elapsed_ms", value: FieldValue::Dec(s.policy_elapsed_ms) });
    v.push(Field { key: "policy_last_issued_seq", value: FieldValue::Dec(s.policy_last_issued_seq) });
    v.push(Field { key: "policy_last_completed_seq", value: FieldValue::Dec(s.policy_last_completed_seq) });
    v.push(Field { key: "metrics_enabled", value: FieldValue::Dec(s.metrics_enabled as u64) });
    v.push(Field { key: "metrics_interval_ms", value: FieldValue::Dec(s.metrics_interval_ms) });
    v.push(Field { key: "metrics_elapsed_ms", value: FieldValue::Dec(s.metrics_elapsed_ms) });
    v.push(Field { key: "evaluator_enabled", value: FieldValue::Dec(s.evaluator_enabled as u64) });
    v.push(Field { key: "evaluator_interval_ms", value: FieldValue::Dec(s.evaluator_interval_ms) });
    v.push(Field { key: "evaluator_elapsed_ms", value: FieldValue::Dec(s.evaluator_elapsed_ms) });
    v.push(Field { key: "evaluator_target_huge_frames", value: FieldValue::Dec(s.evaluator_target_huge_frames) });
    assert(final(v)@ =~= old(v)@ + policy_status_fields_part0(instance_id, *s));
}

fn policy_status_fields_vec(instance_id: u64, s: &HyperAllocRuntimeSnapshot) -> (v: Vec<Field>)
    ensures
        v@ == policy_status_fields(instance_id, *s),
{
    let mut v: Vec<Field> = Vec::new();
    push_policy_status_fields_part0(&mut v, instance_id, s);
    assert(v@ =~= policy_status_fields(instance_id, *s));
    v
}

pub open spec fn debug_reclaim_fields_part0(r: DebugReclaimReply) -> Seq<Field> {
    seq![
        Field { key: "instance", value: FieldValue::Dec(r.instance_id) },
        Field { key: "flags", value: FieldValue::Hex(r.flags as u64) },
        Field { key: "zone", value: FieldValue::Dec(r.zone_id as u64) },
        Field { key: "frame_gpa", value: FieldValue::Hex(r.frame_gpa) },
        Field { key: "frame_len", value: FieldValue::Hex(r.frame_len) },
        Field { key: "installed_after", value: FieldValue::Dec(r.installed_after) },
        Field { key: "soft_after", value: FieldValue::Dec(r.soft_after) },
        Field { key: "hard_after", value: FieldValue::Dec(r.hard_after) },
        Field { key: "physical_releases_after", value: FieldValue::Dec(r.physical_releases_after) },
        Field { key: "physically_released_after", value: FieldValue::Dec(r.physically_released_after) },
        Field { key: "last_physical_release_hpa", value: FieldValue::Hex(r.last_physical_release_hpa) },
        Field { key: "errno", value: FieldValue::Int(r.result_errno as i64) },
    ]
}

/// The fields of a `debug_reclaim` answer.
pub open spec fn debug_reclaim_fields(r: DebugReclaimReply) -> Seq<Field> {
    debug_reclaim_fields_part0(r)
}

fn push_debug_reclaim_fields_part0(v: &mut Vec<Field>, r: &DebugReclaimReply)
    ensures
        final(v)@ == old(v)@ + debug_reclaim_fields_part0(*r),
{
    v.push(Field { key: "instance", value: FieldValue::Dec(r.instance_id) });
    v.push(Field { key: "flags", value: FieldValue::Hex(r.flags as u64) });
    v.push(Field { key: "zone", value: FieldValue::Dec(r.zone_id as u64) });
    v.push(Field { key: "frame_gpa", value: FieldValue::Hex(r.frame_gpa) });
    v.push(Field { key: "frame_len", value: FieldValue::Hex(r.frame_len) });
    v.push(Field { key: "installed_after", value: FieldValue::Dec(r.installed_after) });
    v.push(Field { key: "soft_after", value: FieldValue::Dec(r.soft_after) });
    v.push(Field { key: "hard_after", value: FieldValue::Dec(r.hard_after) });
    v.push(Field { key: "physical_releases_after", value: FieldValue::Dec(r.physical_releases_after) });
    v.push(Field { key: "physically_released_after", value: FieldValue::Dec(r.physically_released_after) });
    v.push(Field { key: "last_physical_release_hpa", value: FieldValue::Hex(r.last_physical_release_hpa) });
    v.push(Field { key: "errno", value: FieldValue::Int(r.result_errno as i64) });
    assert(final(v)@ =~= old(v)@ + debug_reclaim_fields_part0(*r));
}

fn debug_reclaim_fields_vec(r: &DebugReclaimReply) -> (v: Vec<Field>)
    ensures
        v@ == debug_reclaim_fields(*r),
{
    let mut v: Vec<Field> = Vec::new();
    push_debug_reclaim_fields_part0(&mut v, r);
    assert(v@ =~= debug_reclaim_fields(*r));
    v
}

pub open spec fn vma_zap_fields_part0(r: MmapZapReply) -> Seq<Field> {
    seq![
        Field { key: "instance", value: FieldValue::Dec(r.instance_id) },
        Field { key: "gpa", value: FieldValue::Hex(r.gpa) },
        Field { key: "len", value: FieldValue::Hex(r.len) },
        Field { key: "zapped_vmas", value: FieldValue::Dec(r.zapped_vmas) },
        Field { key: "zapped_bytes", value: FieldValue::Hex(r.zapped_bytes) },
        Field { key: "errno", value: FieldValue::Int(r.result_errno as i64) },
    ]
}

/// The fields of a `vma_zap` answer.
pub open spec fn vma_zap_fields(r: MmapZapReply) -> Seq<Field> {
    vma_zap_fields_part0(r)
}

fn push_vma_zap_fields_part0(v: &mut Vec<Field>, r: &MmapZapReply)
    ensures
        final(v)@ == old(v)@ + vma_zap_fields_part0(*r),
{
    v.push(Field { key: "instance", value: FieldValue::Dec(r.instance_id) });
    v.push(Field { key: "gpa", value: FieldValue::Hex(r.gpa) });
    v.push(Field { key: "len", value: FieldValue::Hex(r.len) });
    v.push(Field { key: "zapped_vmas", value: FieldValue::Dec(r.zapped_vmas) });
    v.push(Field { key: "zapped_bytes", value: FieldValue::Hex(r.zapped_bytes) });
    v.push(Field { key: "errno", value: FieldValue::Int(r.result_errno as i64) });
    assert(final(v)@ =~= old(v)@ + vma_zap_fields_part0(*r));
}

fn vma_zap_fields_vec(r: &MmapZapReply) -> (v: Vec<Field>)
    ensures
        v@ == vma_zap_fields(*r),
{
    let mut v: Vec<Field> = Vec::new();
    push_vma_zap_fields_part0(&mut v, r);
    assert(v@ =~= vma_zap_fields(*r));
    v
}

pub open spec fn eqgate_enqueue_fields_part0(r: EqgateEnqueueReply) -> Seq<Field> {
    seq![
        Field { key: "instance", value: FieldValue::Dec(r.instance_id) },
        Field { key: "vcpu", value: FieldValue::Dec(r.vcpu_id as u64) },
        Field { key: "zone", value: FieldValue::Dec(r.zone_id as u64) },
        Field { key: "frame_gpa", value: FieldValue::Hex(r.frame_gpa) },
        Field { key: "frame_len", value: FieldValue::Hex(r.frame_len) },
        Field { key: "entry_flags", value: FieldValue::Hex(r.entry_flags) },
        Field { key: "target_pcpu", value: FieldValue::Dec(r.target_pcpu as u64) },
        Field { key: "sequence", value: FieldValue::Dec(r.sequence) },
        Field { key: "pending_before", value: FieldValue::Dec(r.pending_before) },
        Field { key: "pending_after", value: FieldValue::Dec(r.pending_after) },
        Field { key: "submitted_after", value: FieldValue::Dec(r.submitted_after) },
        Field { key: "dropped_after", value: FieldValue::Dec(r.dropped_after) },
        Field { key: "errno", value: FieldValue::Int(r.result_errno as i64) },
    ]
}

/// The fields of an `eqgate_debug_enqueue` answer.
pub open spec fn eqgate_enqueue_fields(r: EqgateEnqueueReply) -> Seq<Field> {
    eqgate_enqueue_fields_part0(r)
}

fn push_eqgate_enqueue_fields_part0(v: &mut Vec<Field>, r: &EqgateEnqueueReply)
    ensures
        final(v)@ == old(v)@ + eqgate_enqueue_fields_part0(*r),
{
    v.push(Field { key: "instance", value: FieldValue::Dec(r.instance_id) });
    v.push(Field { key: "vcpu", value: FieldValue::Dec(r.vcpu_id as u64) });
    v.push(Field { key: "zone", value: FieldValue::Dec(r.zone_id as u64) });
    v.push(Field { key: "frame_gpa", value: FieldValue::Hex(r.frame_gpa) });
    v.push(Field { key: "frame_len", value: FieldValue::Hex(r.frame_len) });
    v.push(Field { key: "entry_flags", value: FieldValue::Hex(r.entry_flags) });
    v.push(Field { key: "target_pcpu", value: FieldValue::Dec(r.target_pcpu as u64) });
    v.push(Field { key: "sequence", value: FieldValue::Dec(r.sequence) });
    v.push(Field { key: "pending_before", value: FieldValue::Dec(r.pending_before) });
    v.push(Field { key: "pending_after", value: FieldValue::Dec(r.pending_after) });
    v.push(Field { key: "submitted_after", value: FieldValue::Dec(r.submitted_after) });
    v.push(Field { key: "dropped_after", value: FieldValue::Dec(r.dropped_after) });
    v.push(Field { key: "errno", value: FieldValue::Int(r.result_errno as i64) });
    assert(final(v)@ =~= old(v)@ + eqgate_enqueue_fields_part0(*r));
}

fn eqgate_enqueue_fields_vec(r: &EqgateEnqueueReply) -> (v: Vec<Field>)
    ensures
        v@ == eqgate_enqueue_fields(*r),
{
    let mut v: Vec<Field> = Vec::new();
    push_eqgate_enqueue_fields_part0(&mut v, r);
    assert(v@ =~= eqgate_enqueue_fields(*r));
    v
}

pub open spec fn eqgate_drain_fields_part0(r: EqGateDrainReply) -> Seq<Field> {
    seq![
        Field { key: "instance", value: FieldValue::Dec(r.instance_id) },
        Field { key: "flags", value: FieldValue::Hex(r.flags as u64) },
        Field { key: "max_requests", value: FieldValue::Dec(r.max_requests as u64) },
        Field { key: "visited_pcpus", value: FieldValue::Dec(r.visited_pcpus) },
        Field { key: "pending_before", value: FieldValue::Dec(r.pending_before) },
        Field { key: "drained", value: FieldValue::Dec(r.drained) },
        Field { key: "installed", value: FieldValue::Dec(r.installed) },
        Field { key: "unsupported", value: FieldValue::Dec(r.unsupported) },
        Field { key: "failed", value: FieldValue::Dec(r.failed) },
        Field { key: "pending_after", value: FieldValue::Dec(r.pending_after) },
        Field { key: "last_seq", value: FieldValue::Dec(r.last_sequence) },
        Field { key: "errno", value: FieldValue::Int(r.result_errno as i64) },
        Field { key: "skipped", value: FieldValue::Dec(r.skipped) },
        Field { key: "blocked_by_other_instance", value: FieldValue::Dec(r.blocked_by_other_instance) },
    ]
}

/// The fields of an `eqgate_drain` answer.
pub open spec fn eqgate_drain_fields(r: EqGateDrainReply) -> Seq<Field> {
    eqgate_drain_fields_part0(r)
}

fn push_eqgate_drain_fields_part0(v: &mut Vec<Field>, r: &EqGateDrainReply)
    ensures
        final(v)@ == old(v)@ + eqgate_drain_fields_part0(*r),
{
    v.push(Field { key: "instance", value: FieldValue::Dec(r.instance_id) });
    v.push(Field { key: "flags", value: FieldValue::Hex(r.flags as u64) });
    v.push(Field { key: "max_requests", value: FieldValue::Dec(r.max_requests as u64) });
    v.push(Field { key: "visited_pcpus", value: FieldValue::Dec(r.visited_pcpus) });
    v.push(Field { key: "pending_before", value: FieldValue::Dec(r.pending_before) });
    v.push(Field { key: "drained", value: FieldValue::Dec(r.drained) });
    v.push(Field { key: "installed", value: FieldValue::Dec(r.installed) });
    v.push(Field { key: "unsupported", value: FieldValue::Dec(r.unsupported) });
    v.push(Field { key: "failed", value: FieldValue::Dec(r.failed) });
    v.push(Field { key: "pending_after", value: FieldValue::Dec(r.pending_after) });
    v.push(Field { key: "last_seq", value: FieldValue::Dec(r.last_sequence) });
    v.push(Field { key: "errno", value: FieldValue::Int(r.result_errno as i64) });
    v.push(Field { key: "skipped", value: FieldValue::Dec(r.skipped) });
    v.push(Field { key: "blocked_by_other_instance", value: FieldValue::Dec(r.blocked_by_other_instance) });
    assert(final(v)@ =~= old(v)@ + eqgate_drain_fields_part0(*r));
}

fn eqgate_drain_fields_vec(r: &EqGateDrainReply) -> (v: Vec<Field>)
    ensures
        v@ == eqgate_drain_fields(*r),
{
    let mut v: Vec<Field> = Vec::new();
    push_eqgate_drain_fields_part0(&mut v, r);
    assert(v@ =~= eqgate_drain_fields(*r));
    v
}

pub open spec fn drain_once_fields_part0(instance_id: u64, execute: bool, budget: u32, r: EqGateDrainReply) -> Seq<Field> {
    seq![
        Field { key: "instance", value: FieldValue::Dec(instance_id) },
        Field { key: "execute", value: FieldValue::Flag(execute) },
        Field { key: "scheduler_eqgate_drain_budget", value: FieldValue::Dec(budget as u64) },
        Field { key: "flags", value: FieldValue::Hex(r.flags as u64) },
        Field { key: "max_requests", value: FieldValue::Dec(r.max_requests as u64) },
        Field { key: "visited_pcpus", value: FieldValue::Dec(r.visited_pcpus) },
        Field { key: "pending_before", value: FieldValue::Dec(r.pending_before) },
        Field { key: "drained", value: FieldValue::Dec(r.drained) },
        Field { key: "installed", value: FieldValue::Dec(r.installed) },
        Field { key: "unsupported", value: FieldValue::Dec(r.unsupported) },
        Field { key: "failed", value: FieldValue::Dec(r.failed) },
        Field { key: "pending_after", value: FieldValue::Dec(r.pending_after) },
        Field { key: "last_seq", value: FieldValue::Dec(r.last_sequence) },
        Field { key: "errno", value: FieldValue::Int(r.result_errno as i64) },
        Field { key: "skipped", value: FieldValue::Dec(r.skipped) },
        Field { key: "blocked_by_other_instance", value: FieldValue::Dec(r.blocked_by_other_instance) },
    ]
}

/// The fields of a `scheduler_eqgate_drain_once` answer.
pub open spec fn drain_once_fields(instance_id: u64, execute: bool, budget: u32, r: EqGateDrainReply) -> Seq<Field> {
    drain_once_fields_part0(instance_id, execute, budget, r)
}

fn push_drain_once_fields_part0(v: &mut Vec<Field>, instance_id: u64, execute: bool, budget: u32, r: &EqGateDrainReply)
    ensures
        final(v)@ == old(v)@ + drain_once_fields_part0(instance_id, execute, budget, *r),
{
    v.push(Field { key: "instance", value: FieldValue::Dec(instance_id) });
    v.push(Field { key: "execute", value: FieldValue::Flag(execute) });
    v.push(Field { key: "scheduler_eqgate_drain_budget", value: FieldValue::Dec(budget as u64) });
    v.push(Field { key: "flags", value: FieldValue::Hex(r.flags as u64) });
    v.push(Field { key: "max_requests", value: FieldValue::Dec(r.max_requests as u64) });
    v.push(Field { key: "visited_pcpus", value: FieldValue::Dec(r.visited_pcpus) });
    v.push(Field { key: "pending_before", value: FieldValue::Dec(r.pending_before) });
    v.push(Field { key: "drained", value: FieldValue::Dec(r.drained) });
    v.push(Field { key: "installed", value: FieldValue::Dec(r.installed) });
    v.push(Field { key: "unsupported", value: FieldValue::Dec(r.unsupported) });
    v.push(Field { key: "failed", value: FieldValue::Dec(r.failed) });
    v.push(Field { key: "pending_after", value: FieldValue::Dec(r.pending_after) });
    v.push(Field { key: "last_seq", value: FieldValue::Dec(r.last_sequence) });
    v.push(Field { key: "errno", value: FieldValue::Int(r.result_errno as i64) });
    v.push(Field { key: "skipped", value: FieldValue::Dec(r.skipped) });
    v.push(Field { key: "blocked_by_other_instance", value: FieldValue::Dec(r.blocked_by_other_instance) });
    assert(final(v)@ =~= old(v)@ + drain_once_fields_part0(instance_id, execute, budget, *r));
}

fn drain_once_fields_vec(instance_id: u64, execute: bool, budget: u32, r: &EqGateDrainReply) -> (v: Vec<Field>)
    ensures
        v@ == drain_once_fields(instance_id, execute, budget, *r),
{
    let mut v: Vec<Field> = Vec::new();
    push_drain_once_fields_part0(&mut v, instance_id, execute, budget, r);
    assert(v@ =~= drain_once_fields(instance_id, execute, budget, *r));
    v
}

pub open spec fn vfio_dma_fields_part0(r: VfioDmaReply) -> Seq<Field> {
    seq![
        Field { key: "seq", value: FieldValue::Dec(r.sequence) },
        Field { key: "op", value: FieldValue::Dec(r.op as u64) },
        Field { key: "op_name", value: FieldValue::Text(spec_vfio_dma_op_name(r.op)) },
        Field { key: "status", value: FieldValue::Dec(r.status as u64) },
        Field { key: "status_name", value: FieldValue::Text(spec_vfio_dma_status_name(r.status)) },
        Field { key: "frame_gpa", value: FieldValue::Hex(r.frame_gpa) },
        Field { key: "frame_hpa", value: FieldValue::Hex(r.frame_hpa) },
        Field { key: "iova", value: FieldValue::Hex(r.iova) },
        Field { key: "size", value: FieldValue::Hex(r.size) },
        Field { key: "errno", value: FieldValue::Int(r.result_errno as i64) },
    ]
}

/// The fields of the answers to the VFIO DMA debug and completion requests.
pub open spec fn vfio_dma_fields(r: VfioDmaReply) -> Seq<Field> {
    vfio_dma_fields_part0(r)
}

fn push_vfio_dma_fields_part0(v: &mut Vec<Field>, r: &VfioDmaReply)
    ensures
        final(v)@ == old(v)@ + vfio_dma_fields_part0(*r),
{
    v.push(Field { key: "seq", value: FieldValue::Dec(r.sequence) });
    v.push(Field { key: "op", value: FieldValue::Dec(r.op as u64) });
    v.push(Field { key: "op_name", value: FieldValue::Text(vfio_dma_op_name(r.op)) });
    v.push(Field { key: "status", value: FieldValue::Dec(r.status as u64) });
    v.push(Field { key: "status_name", value: FieldValue::Text(vfio_dma_status_name(r.status)) });
    v.push(Field { key: "frame_gpa", value: FieldValue::Hex(r.frame_gpa) });
    v.push(Field { key: "frame_hpa", value: FieldValue::Hex(r.frame_hpa) });
    v.push(Field { key: "iova", value: FieldValue::Hex(r.iova) });
    v.push(Field { key: "size", value: FieldValue::Hex(r.size) });
    v.push(Field { key: "errno", value: FieldValue::Int(r.result_errno as i64) });
    assert(final(v)@ =~= old(v)@ + vfio_dma_fields_part0(*r));
}

fn vfio_dma_fields_vec(r: &VfioDmaReply) -> (v: Vec<Field>)
    ensures
        v@ == vfio_dma_fields(*r),
{
    let mut v: Vec<Field> = Vec::new();
    push_vfio_dma_fields_part0(&mut v, r);
    assert(v@ =~= vfio_dma_fields(*r));
    v
}

pub open spec fn scheduler_apply_fields_part0(s: HyperAllocRuntimeSnapshot, q: HyperAllocQuery, d: Decision, reason: Reason, m: MemoryAction, c: CpuAction, io: IoAction, mword: &'static str, reply: MemoryTargetReply) -> Seq<Field> {
    seq![
        Field { key: "memory_action", value: FieldValue::Text(mword) },
        Field { key: "memory_effect", value: FieldValue::Text(spec_memory_effect_name(memory_effect(q))) },
        Field { key: "cpu_action", value: FieldValue::Text(spec_cpu_action_name(c)) },
        Field { key: "io_action", value: FieldValue::Text(spec_io_action_name(io)) },
        Field { key: "decision", value: FieldValue::Text(spec_decision_name(d)) },
        Field { key: "reason", value: FieldValue::Text(spec_reason_name(reason)) },
        Field { key: "scheduler_target_huge_frames", value: FieldValue::Dec(s.scheduler_target_huge_frames) },
        Field { key: "scheduler_desired_vcpus", value: FieldValue::Dec(s.scheduler_desired_vcpus as u64) },
        Field { key: "current_memory_target_huge_frames", value: FieldValue::Dec(s.memory_target_huge_frames) },
        Field { key: "seq", value: FieldValue::Dec(reply.sequence) },
        Field { key: "status", value: FieldValue::Dec(reply.status as u64) },
        Field { key: "target_pages", value: FieldValue::Dec(reply.target_pages) },
        Field { key: "timeout_ms", value: FieldValue::Dec(reply.timeout_ms) },
        Field { key: "scheduler_io_backend", value: FieldValue::Text(io_backend(s.has_block_backend, s.has_vfio_backend)) },
        Field { key: "io_effect", value: FieldValue::Text(io_effect(s.scheduler_vfio_queue_goal, s.scheduler_block_io_weight, s.has_block_backend, s.has_vfio_backend)) },
    ]
}

/// The fields of a `scheduler_apply` answer; `mword` names the memory step.
pub open spec fn scheduler_apply_fields(s: HyperAllocRuntimeSnapshot, q: HyperAllocQuery, d: Decision, reason: Reason, m: MemoryAction, c: CpuAction, io: IoAction, mword: &'static str, reply: MemoryTargetReply) -> Seq<Field> {
    scheduler_apply_fields_part0(s, q, d, reason, m, c, io, mword, reply)
}

fn push_scheduler_apply_fields_part0(v: &mut Vec<Field>, s: &HyperAllocRuntimeSnapshot, q: &HyperAllocQuery, d: Decision, reason: Reason, m: MemoryAction, c: CpuAction, io: IoAction, mword: &'static str, reply: MemoryTargetReply)
    ensures
        final(v)@ == old(v)@ + scheduler_apply_fields_part0(*s, *q, d, reason, m, c, io, mword, reply),
{
    v.push(Field { key: "memory_action", value: FieldValue::Text(mword) });
    v.push(Field { key: "memory_effect", value: FieldValue::Text(memory_effect_name(hyperalloc_memory_effect(q))) });
    v.push(Field { key: "cpu_action", value: FieldValue::Text(cpu_action_name(c)) });
    v.push(Field { key: "io_action", value: FieldValue::Text(io_action_name(io)) });
    v.push(Field { key: "decision", value: FieldValue::Text(decision_name(d)) });
    v.push(Field { key: "reason", value: FieldValue::Text(reason_name(reason)) });
    v.push(Field { key: "scheduler_target_huge_frames", value: FieldValue::Dec(s.scheduler_target_huge_frames) });
    v.push(Field { key: "scheduler_desired_vcpus", value: FieldValue::Dec(s.scheduler_desired_vcpus as u64) });
    v.push(Field { key: "current_memory_target_huge_frames", value: FieldValue::Dec(s.memory_target_huge_frames) });
    v.push(Field { key: "seq", value: FieldValue::Dec(reply.sequence) });
    v.push(Field { key: "status", value: FieldValue::Dec(reply.status as u64) });
    v.push(Field { key: "target_pages", value: FieldValue::Dec(reply.target_pages) });
    v.push(Field { key: "timeout_ms", value: FieldValue::Dec(reply.timeout_ms) });
    v.push(Field { key: "scheduler_io_backend", value: FieldValue::Text(hyperalloc_scheduler_io_backend(s.has_block_backend, s.has_vfio_backend)) });
    v.push(Field { key: "io_effect", value: FieldValue::Text(hyperalloc_scheduler_io_effect(s.scheduler_vfio_queue_goal, s.scheduler_block_io_weight, s.has_block_backend, s.has_vfio_backend)) });
    assert(final(v)@ =~= old(v)@ + scheduler_apply_fields_part0(*s, *q, d, reason, m, c, io, mword, reply));
}

fn scheduler_apply_fields_vec(s: &HyperAllocRuntimeSnapshot, q: &HyperAllocQuery, d: Decision, reason: Reason, m: MemoryAction, c: CpuAction, io: IoAction, mword: &'static str, reply: MemoryTargetReply) -> (v: Vec<Field>)
    ensures
        v@ == scheduler_apply_fields(*s, *q, d, reason, m, c, io, mword, reply),
{
    let mut v: Vec<Field> = Vec::new();
    push_scheduler_apply_fields_part0(&mut v, s, q, d, reason, m, c, io, mword, reply);
    assert(v@ =~= scheduler_apply_fields(*s, *q, d, reason, m, c, io, mword, reply));
    v
}

pub open spec fn scheduler_apply_all_fields_part0(s: HyperAllocRuntimeSnapshot, q: HyperAllocQuery, d: Decision, reason: Reason, m: MemoryAction, c: CpuAction, io: IoAction, mem: HyperAllocSchedulerMemoryApplyResult, cpu: HyperAllocSchedulerCpuApplyResult, block: Outcome, vfio: Outcome, eq: HyperAllocSchedulerEqGateAutoDrainResult) -> Seq<Field> {
    seq![
        Field { key: "memory_action", value: FieldValue::Text(spec_memory_action_name(m)) },
        Field { key: "memory_apply_result", value: FieldValue::Text(spec_outcome_name(mem.result)) },
        Field { key: "memory_effect", value: FieldValue::Text(spec_memory_effect_name(memory_effect(q))) },
        Field { key: "memory_seq", value: FieldValue::Dec(mem.sequence) },
        Field { key: "memory_status", value: FieldValue::Dec(mem.status as u64) },
        Field { key: "memory_target_pages", value: FieldValue::Dec(mem.target_pages) },
        Field { key: "memory_timeout_ms", value: FieldValue::Dec(mem.timeout_ms) },
        Field { key: "cpu_action", value: FieldValue::Text(spec_cpu_action_name(c)) },
        Field { key: "cpu_apply_result", value: FieldValue::Text(spec_outcome_name(cpu.result)) },
        Field { key: "desired_vcpus_before", value: FieldValue::Dec(cpu.desired_before as u64) },
        Field { key: "desired_vcpus_after", value: FieldValue::Dec(cpu.desired_after as u64) },
        Field { key: "scheduler_desired_vcpus", value: FieldValue::Dec(s.scheduler_desired_vcpus as u64) },
        Field { key: "max_vcpus", value: FieldValue::Dec(cpu.max_vcpus as u64) },
        Field { key: "io_action", value: FieldValue::Text(spec_io_action_name(io)) },
        Field { key: "scheduler_io_backend", value: FieldValue::Text(io_backend(s.has_block_backend, s.has_vfio_backend)) },
        Field { key: "io_effect", value: FieldValue::Text(io_effect(s.scheduler_vfio_queue_goal, s.scheduler_block_io_weight, s.has_block_backend, s.has_vfio_backend)) },
        Field { key: "block_policy_result", value: FieldValue::Text(spec_outcome_name(block)) },
        Field { key: "vfio_channel_result", value: FieldValue::Text(spec_outcome_name(vfio)) },
        Field { key: "eqgate_action", value: FieldValue::Text(spec_eqgate_action_name(eqgate_action(s, q))) },
        Field { key: "eqgate_apply_result", value: FieldValue::Text(spec_outcome_name(eq.result)) },
        Field { key: "eqgate_apply_flags", value: FieldValue::Hex(eq.flags as u64) },
        Field { key: "eqgate_apply_max_requests", value: FieldValue::Dec(eq.max_requests as u64) },
        Field { key: "eqgate_apply_visited_pcpus", value: FieldValue::Dec(eq.visited_pcpus) },
        Field { key: "eqgate_apply_pending_before", value: FieldValue::Dec(eq.pending_before) },
    ]
}

pub open spec fn scheduler_apply_all_fields_part1(s: HyperAllocRuntimeSnapshot, q: HyperAllocQuery, d: Decision, reason: Reason, m: MemoryAction, c: CpuAction, io: IoAction, mem: HyperAllocSchedulerMemoryApplyResult, cpu: HyperAllocSchedulerCpuApplyResult, block: Outcome, vfio: Outcome, eq: HyperAllocSchedulerEqGateAutoDrainResult) -> Seq<Field> {
    seq![
        Field { key: "eqgate_apply_drained", value: FieldValue::Dec(eq.drained) },
        Field { key: "eqgate_apply_installed", value: FieldValue::Dec(eq.installed) },
        Field { key: "eqgate_apply_unsupported", value: FieldValue::Dec(eq.unsupported) },
        Field { key: "eqgate_apply_failed", value: FieldValue::Dec(eq.failed) },
        Field { key: "eqgate_apply_pending_after", value: FieldValue::Dec(eq.pending_after) },
        Field { key: "eqgate_apply_last_seq", value: FieldValue::Dec(eq.last_sequence) },
        Field { key: "eqgate_apply_skipped", value: FieldValue::Dec(eq.skipped) },
        Field { key: "eqgate_apply_blocked_by_other_instance", value: FieldValue::Dec(eq.blocked_by_other_instance) },
        Field { key: "decision", value: FieldValue::Text(spec_decision_name(d)) },
        Field { key: "reason", value: FieldValue::Text(spec_reason_name(reason)) },
        Field { key: "scheduler_target_huge_frames", value: FieldValue::Dec(s.scheduler_target_huge_frames) },
        Field { key: "scheduler_vfio_queue_goal", value: FieldValue::Dec(s.scheduler_vfio_queue_goal as u64) },
        Field { key: "scheduler_block_io_weight", value: FieldValue::Dec(s.scheduler_block_io_weight as u64) },
        Field { key: "scheduler_eqgate_drain_budget", value: FieldValue::Dec(s.scheduler_eqgate_drain_budget as u64) },
        Field { key: "current_memory_target_huge_frames", value: FieldValue::Dec(s.memory_target_huge_frames) },
    ]
}

/// The fields of a `scheduler_apply_all` answer.
pub open spec fn scheduler_apply_all_fields(s: HyperAllocRuntimeSnapshot, q: HyperAllocQuery, d: Decision, reason: Reason, m: MemoryAction, c: CpuAction, io: IoAction, mem: HyperAllocSchedulerMemoryApplyResult, cpu: HyperAllocSchedulerCpuApplyResult, block: Outcome, vfio: Outcome, eq: HyperAllocSchedulerEqGateAutoDrainResult) -> Seq<Field> {
    scheduler_apply_all_fields_part0(s, q, d, reason, m, c, io, mem, cpu, block, vfio, eq) + scheduler_apply_all_fields_part1(s, q, d, reason, m, c, io, mem, cpu, block, vfio, eq)
}

fn push_scheduler_apply_all_fields_part0(v: &mut Vec<Field>, s: &HyperAllocRuntimeSnapshot, q: &HyperAllocQuery, d: Decision, reason: Reason, m: MemoryAction, c: CpuAction, io: IoAction, mem: HyperAllocSchedulerMemoryApplyResult, cpu: HyperAllocSchedulerCpuApplyResult, block: Outcome, vfio: Outcome, eq: HyperAllocSchedulerEqGateAutoDrainResult)
    ensures
        final(v)@ == old(v)@ + scheduler_apply_all_fields_part0(*s, *q, d, reason, m, c, io, mem, cpu, block, vfio, eq),
{
    v.push(Field { key: "memory_action", value: FieldValue::Text(memory_action_name(m)) });
    v.push(Field { key: "memory_apply_result", value: FieldValue::Text(outcome_name(mem.result)) });
    v.push(Field { key: "memory_effect", value: FieldValue::Text(memory_effect_name(hyperalloc_memory_effect(q))) });
    v.push(Field { key: "memory_seq", value: FieldValue::Dec(mem.sequence) });
    v.push(Field { key: "memory_status", value: FieldValue::Dec(mem.status as u64) });
    v.push(Field { key: "memory_target_pages", value: FieldValue::Dec(mem.target_pages) });
    v.push(Field { key: "memory_timeout_ms", value: FieldValue::Dec(mem.timeout_ms) });
    v.push(Field { key: "cpu_action", value: FieldValue::Text(cpu_action_name(c)) });
    v.push(Field { key: "cpu_apply_result", value: FieldValue::Text(outcome_name(cpu.result)) });
    v.push(Field { key: "desired_vcpus_before", value: FieldValue::Dec(cpu.desired_before as u64) });
    v.push(Field { key: "desired_vcpus_after", value: FieldValue::Dec(cpu.desired_after as u64) });
    v.push(Field { key: "scheduler_desired_vcpus", value: FieldValue::Dec(s.scheduler_desired_vcpus as u64) });
    v.push(Field { key: "max_vcpus", value: FieldValue::Dec(cpu.max_vcpus as u64) });
    v.push(Field { key: "io_action", value: FieldValue::Text(io_action_name(io)) });
    v.push(Field { key: "scheduler_io_backend", value: FieldValue::Text(hyperalloc_scheduler_io_backend(s.has_block_backend, s.has_vfio_backend)) });
    v.push(Field { key: "io_effect", value: FieldValue::Text(hyperalloc_scheduler_io_effect(s.scheduler_vfio_queue_goal, s.scheduler_block_io_weight, s.has_block_backend, s.has_vfio_backend)) });
    v.push(Field { key: "block_policy_result", value: FieldValue::Text(outcome_name(block)) });
    v.push(Field { key: "vfio_channel_result", value: FieldValue::Text(outcome_name(vfio)) });
    v.push(Field { key: "eqgate_action", value: FieldValue::Text(eqgate_action_name(hyperalloc_scheduler_eqgate_action(s, q))) });
    v.push(Field { key: "eqgate_apply_result", value: FieldValue::Text(outcome_name(eq.result)) });
    v.push(Field { key: "eqgate_apply_flags", value: FieldValue::Hex(eq.flags as u64) });
    v.push(Field { key: "eqgate_apply_max_requests", value: FieldValue::Dec(eq.max_requests as u64) });
    v.push(Field { key: "eqgate_apply_visited_pcpus", value: FieldValue::Dec(eq.visited_pcpus) });
    v.push(Field { key: "eqgate_apply_pending_before", value: FieldValue::Dec(eq.pending_before) });
    assert(final(v)@ =~= old(v)@ + scheduler_apply_all_fields_part0(*s, *q, d, reason, m, c, io, mem, cpu, block, vfio, eq));
}

fn push_scheduler_apply_all_fields_part1(v: &mut Vec<Field>, s: &HyperAllocRuntimeSnapshot, q: &HyperAllocQuery, d: Decision, reason: Reason, m: MemoryAction, c: CpuAction, io: IoAction, mem: HyperAllocSchedulerMemoryApplyResult, cpu: HyperAllocSchedulerCpuApplyResult, block: Outcome, vfio: Outcome, eq: HyperAllocSchedulerEqGateAutoDrainResult)
    ensures
        final(v)@ == old(v)@ + scheduler_apply_all_fields_part1(*s, *q, d, reason, m, c, io, mem, cpu, block, vfio, eq),
{
    v.push(Field { key: "eqgate_apply_drained", value: FieldValue::Dec(eq.drained) });
    v.push(Field { key: "eqgate_apply_installed", value: FieldValue::Dec(eq.installed) });
    v.push(Field { key: "eqgate_apply_unsupported", value: FieldValue::Dec(eq.unsupported) });
    v.push(Field { key: "eqgate_apply_failed", value: FieldValue::Dec(eq.failed) });
    v.push(Field { key: "eqgate_apply_pending_after", value: FieldValue::Dec(eq.pending_after) });
    v.push(Field { key: "eqgate_apply_last_seq", value: FieldValue::Dec(eq.last_sequence) });
    v.push(Field { key: "eqgate_apply_skipped", value: FieldValue::Dec(eq.skipped) });
    v.push(Field { key: "eqgate_apply_blocked_by_other_instance", value: FieldValue::Dec(eq.blocked_by_other_instance) });
    v.push(Field { key: "decision", value: FieldValue::Text(decision_name(d)) });
    v.push(Field { key: "reason", value: FieldValue::Text(reason_name(reason)) });
    v.push(Field { key: "scheduler_target_huge_frames", value: FieldValue::Dec(s.scheduler_target_huge_frames) });
    v.push(Field { key: "scheduler_vfio_queue_goal", value: FieldValue::Dec(s.scheduler_vfio_queue_goal as u64) });
    v.push(Field { key: "scheduler_block_io_weight", value: FieldValue::Dec(s.scheduler_block_io_weight as u64) });
    v.push(Field { key: "scheduler_eqgate_drain_budget", value: FieldValue::Dec(s.scheduler_eqgate_drain_budget as u64) });
    v.push(Field { key: "current_memory_target_huge_frames", value: FieldValue::Dec(s.memory_target_huge_frames) });
    assert(final(v)@ =~= old(v)@ + scheduler_apply_all_fields_part1(*s, *q, d, reason, m, c, io, mem, cpu, block, vfio, eq));
}

fn scheduler_apply_all_fields_vec(s: &HyperAllocRuntimeSnapshot, q: &HyperAllocQuery, d: Decision, reason: Reason, m: MemoryAction, c: CpuAction, io: IoAction, mem: HyperAllocSchedulerMemoryApplyResult, cpu: HyperAllocSchedulerCpuApplyResult, block: Outcome, vfio: Outcome, eq: HyperAllocSchedulerEqGateAutoDrainResult) -> (v: Vec<Field>)
    ensures
        v@ == scheduler_apply_all_fields(*s, *q, d, reason, m, c, io, mem, cpu, block, vfio, eq),
{
    let mut v: Vec<Field> = Vec::new();
    push_scheduler_apply_all_fields_part0(&mut v, s, q, d, reason, m, c, io, mem, cpu, block, vfio, eq);
    push_scheduler_apply_all_fields_part1(&mut v, s, q, d, reason, m, c, io, mem, cpu, block, vfio, eq);
    assert(v@ =~= scheduler_apply_all_fields(*s, *q, d, reason, m, c, io, mem, cpu, block, vfio, eq));
    v
}

/// The answer to a policy setting.
pub fn format_hyperalloc_policy_set_response(s: &HyperAllocRuntimeSnapshot) -> (r: String)
    ensures
        r@ == "policy_set"@ + fields_text(policy_set_fields(*s)),
{
    crate::report::render("policy_set", &policy_set_fields_vec(s))
}

/// The answer to a metrics setting.
pub fn format_hyperalloc_metrics_set_response(s: &HyperAllocRuntimeSnapshot) -> (r: String)
    ensures
        r@ == "metrics_set"@ + fields_text(metrics_set_fields(*s)),
{
    crate::report::render("metrics_set", &metrics_set_fields_vec(s))
}

/// The answer to an evaluator setting.
pub fn format_hyperalloc_eval_set_response(s: &HyperAllocRuntimeSnapshot) -> (r: String)
    ensures
        r@ == "eval_set"@ + fields_text(eval_set_fields(*s)),
{
    crate::report::render("eval_set", &eval_set_fields_vec(s))
}

/// The answer to a scheduler setting.
pub fn format_hyperalloc_scheduler_set_response(s: &HyperAllocRuntimeSnapshot) -> (r: String)
    ensures
        r@ == "scheduler_set"@ + fields_text(scheduler_set_fields(*s)),
{
    crate::report::render("scheduler_set", &scheduler_set_fields_vec(s))
}

/// The scheduler status line.
pub fn format_scheduler_status_line(s: &HyperAllocRuntimeSnapshot) -> (r: String)
    ensures
        r@ == "scheduler_status"@ + fields_text(scheduler_status_fields(*s)),
{
    crate::report::render("scheduler_status", &scheduler_status_fields_vec(s))
}

/// The answer to an I/O goal setting.
pub fn format_scheduler_io_set_response(s: &HyperAllocRuntimeSnapshot) -> (r: String)
    ensures
        r@ == "scheduler_io_set"@ + fields_text(scheduler_io_set_fields(*s)),
{
    crate::report::render("scheduler_io_set", &scheduler_io_set_fields_vec(s))
}

/// The answer to the CPU auto-apply switch.
pub fn format_scheduler_cpu_auto_set_response(s: &HyperAllocRuntimeSnapshot) -> (r: String)
    ensures
        r@ == "scheduler_cpu_auto_set"@ + fields_text(scheduler_auto_set_fields(*s)),
{
    crate::report::render("scheduler_cpu_auto_set", &scheduler_auto_set_fields_vec(s))
}

/// The answer to the EqGate auto-drain switch.
pub fn format_scheduler_eqgate_auto_set_response(s: &HyperAllocRuntimeSnapshot) -> (r: String)
    ensures
        r@ == "scheduler_eqgate_auto_set"@ + fields_text(scheduler_eqgate_auto_set_fields(*s)),
{
    crate::report::render("scheduler_eqgate_auto_set", &scheduler_eqgate_auto_set_fields_vec(s))
}

/// The answer to the adaptive switch.
pub fn format_scheduler_adaptive_set_response(s: &HyperAllocRuntimeSnapshot) -> (r: String)
    ensures
        r@ == "scheduler_adaptive_set"@ + fields_text(scheduler_adaptive_set_fields(*s)),
{
    crate::report::render("scheduler_adaptive_set", &scheduler_adaptive_set_fields_vec(s))
}

/// The policy status line.
pub fn format_policy_status_line(instance_id: u64, s: &HyperAllocRuntimeSnapshot) -> (r: String)
    ensures
        r@ == "policy_status"@ + fields_text(policy_status_fields(instance_id, *s)),
{
    crate::report::render("policy_status", &policy_status_fields_vec(instance_id, s))
}

/// The answer to a debug reclaim.
pub fn format_debug_reclaim_response(r: &DebugReclaimReply) -> (line: String)
    ensures
        line@ == "debug_reclaim"@ + fields_text(debug_reclaim_fields(*r)),
{
    crate::report::render("debug_reclaim", &debug_reclaim_fields_vec(r))
}

/// The answer to a guest RAM mapping zap.
pub fn format_vma_zap_response(r: &MmapZapReply) -> (line: String)
    ensures
        line@ == "vma_zap"@ + fields_text(vma_zap_fields(*r)),
{
    crate::report::render("vma_zap", &vma_zap_fields_vec(r))
}

/// The answer to a debug EqGate enqueue.
pub fn format_eqgate_enqueue_response(r: &EqgateEnqueueReply) -> (line: String)
    ensures
        line@ == "eqgate_debug_enqueue"@ + fields_text(eqgate_enqueue_fields(*r)),
{
    crate::report::render("eqgate_debug_enqueue", &eqgate_enqueue_fields_vec(r))
}

/// The answer to an EqGate drain.
pub fn format_eqgate_drain_response(r: &EqGateDrainReply) -> (line: String)
    ensures
        line@ == "eqgate_drain"@ + fields_text(eqgate_drain_fields(*r)),
{
    crate::report::render("eqgate_drain", &eqgate_drain_fields_vec(r))
}

/// The answer to a scheduler EqGate drain.
pub fn format_drain_once_response(instance_id: u64, execute: bool, budget: u32, r: &EqGateDrainReply) -> (line: String)
    ensures
        line@ == "scheduler_eqgate_drain_once"@ + fields_text(drain_once_fields(instance_id, execute, budget, *r)),
{
    crate::report::render("scheduler_eqgate_drain_once", &drain_once_fields_vec(instance_id, execute, budget, r))
}

/// The answer to a VFIO DMA debug request.
pub fn format_vfio_dma_debug_response(r: &VfioDmaReply) -> (line: String)
    ensures
        line@ == "vfio_dma_debug"@ + fields_text(vfio_dma_fields(*r)),
{
    crate::report::render("vfio_dma_debug", &vfio_dma_fields_vec(r))
}

/// The answer to a VFIO DMA completion.
pub fn format_vfio_dma_complete_response(r: &VfioDmaReply) -> (line: String)
    ensures
        line@ == "vfio_dma_complete"@ + fields_text(vfio_dma_fields(*r)),
{
    crate::report::render("vfio_dma_complete", &vfio_dma_fields_vec(r))
}

/// The answer to a scheduler apply-once.
pub fn format_scheduler_apply_response(s: &HyperAllocRuntimeSnapshot, q: &HyperAllocQuery, d: Decision, reason: Reason, m: MemoryAction, c: CpuAction, io: IoAction, mword: &'static str, reply: MemoryTargetReply) -> (r: String)
    ensures
        r@ == "scheduler_apply"@ + fields_text(scheduler_apply_fields(*s, *q, d, reason, m, c, io, mword, reply)),
{
    crate::report::render("scheduler_apply", &scheduler_apply_fields_vec(s, q, d, reason, m, c, io, mword, reply))
}

/// The answer to a scheduler apply-all-once.
pub fn format_scheduler_apply_all_response(s: &HyperAllocRuntimeSnapshot, q: &HyperAllocQuery, d: Decision, reason: Reason, m: MemoryAction, c: CpuAction, io: IoAction, mem: HyperAllocSchedulerMemoryApplyResult, cpu: HyperAllocSchedulerCpuApplyResult, block: Outcome, vfio: Outcome, eq: HyperAllocSchedulerEqGateAutoDrainResult) -> (r: String)
    ensures
        r@ == "scheduler_apply_all"@ + fields_text(scheduler_apply_all_fields(*s, *q, d, reason, m, c, io, mem, cpu, block, vfio, eq)),
{
    crate::report::render("scheduler_apply_all", &scheduler_apply_all_fields_vec(s, q, d, reason, m, c, io, mem, cpu, block, vfio, eq))
}

/// The answer to an automatic memory apply setting, under its command's label.
pub fn format_scheduler_auto_set_response(label: &str, s: &HyperAllocRuntimeSnapshot) -> (r: String)
    ensures
        r@ == label@ + fields_text(scheduler_auto_set_fields(*s)),
{
    crate::report::render(label, &scheduler_auto_set_fields_vec(s))
}

/// The fields of a memory target answer after its first one.
pub open spec fn memory_target_rest(reply: MemoryTargetReply) -> Seq<Field> {
    seq![
        Field { key: "seq", value: FieldValue::Dec(reply.sequence) },
        Field { key: "status", value: FieldValue::Dec(reply.status as u64) },
        Field { key: "target_pages", value: FieldValue::Dec(reply.target_pages) },
        Field { key: "timeout_ms", value: FieldValue::Dec(reply.timeout_ms) },
    ]
}

/// `memory_target_huge_frames=<target> seq=.. status=.. target_pages=.. timeout_ms=..`.
pub open spec fn memory_target_text(target_huge_frames: u64, reply: MemoryTargetReply) -> Seq<char> {
    bare_text(Field { key: "memory_target_huge_frames", value: FieldValue::Dec(target_huge_frames) }, memory_target_rest(reply))
}

pub fn format_memory_target_response(target_huge_frames: u64, reply: &MemoryTargetReply) -> (r: String)
    ensures
        r@ == memory_target_text(target_huge_frames, *reply),
{
    let rest = vec![
        Field { key: "seq", value: FieldValue::Dec(reply.sequence) },
        Field { key: "status", value: FieldValue::Dec(reply.status as u64) },
        Field { key: "target_pages", value: FieldValue::Dec(reply.target_pages) },
        Field { key: "timeout_ms", value: FieldValue::Dec(reply.timeout_ms) },
    ];
    assert(rest@ =~= memory_target_rest(*reply));
    render_bare(Field { key: "memory_target_huge_frames", value: FieldValue::Dec(target_huge_frames) }, &rest)
}

/// `desired_vcpus=<d> max_vcpus=<m>`, and the memory target when given.
pub open spec fn vcpu_text(desired: u8, max_vcpus: u8, memory_target: Option<u64>) -> Seq<char> {
    let rest = seq![Field { key: "max_vcpus", value: FieldValue::Dec(max_vcpus as u64) }];
    bare_text(
        Field { key: "desired_vcpus", value: FieldValue::Dec(desired as u64) },
        match memory_target {
            Some(t) => rest.push(Field { key: "memory_target_huge_frames", value: FieldValue::Dec(t) }),
            None => rest,
        },
    )
}

pub fn format_vcpu_response(desired: u8, max_vcpus: u8, memory_target: Option<u64>) -> (r: String)
    ensures
        r@ == vcpu_text(desired, max_vcpus, memory_target),
{
    let mut rest = vec![Field { key: "max_vcpus", value: FieldValue::Dec(max_vcpus as u64) }];
    if let Some(t) = memory_target {
        rest.push(Field { key: "memory_target_huge_frames", value: FieldValue::Dec(t) });
    }
    proof {
        let spec_rest = seq![Field { key: "max_vcpus", value: FieldValue::Dec(max_vcpus as u64) }];
        assert(rest@ =~= match memory_target {
            Some(t) => spec_rest.push(Field { key: "memory_target_huge_frames", value: FieldValue::Dec(t) }),
            None => spec_rest,
        });
    }
    render_bare(Field { key: "desired_vcpus", value: FieldValue::Dec(desired as u64) }, &rest)
}

/// `microvm_stop instance=<id> active_pcpus_signalled=<n>`.
pub open spec fn stop_text(instance_id: u64, signalled: u64) -> Seq<char> {
    "microvm_stop"@ + fields_text(seq![
        Field { key: "instance", value: FieldValue::Dec(instance_id) },
        Field { key: "active_pcpus_signalled", value: FieldValue::Dec(signalled) },
    ])
}

pub fn format_stop_response(instance_id: u64, signalled: u64) -> (r: String)
    ensures
        r@ == stop_text(instance_id, signalled),
{
    let v = vec![
        Field { key: "instance", value: FieldValue::Dec(instance_id) },
        Field { key: "active_pcpus_signalled", value: FieldValue::Dec(signalled) },
    ];
    crate::report::render("microvm_stop", &v)
}

/// `scheduler_cpu_apply cpu_action=<word> scheduler_desired_vcpus=.. desired_vcpus_before=..
/// desired_vcpus_after=.. max_vcpus=..`.
pub open spec fn cpu_apply_fields(word: &'static str, scheduler_desired: u8, before: u8, after: u8, max_vcpus: u8) -> Seq<Field> {
    seq![
        Field { key: "cpu_action", value: FieldValue::Text(word) },
        Field { key: "scheduler_desired_vcpus", value: FieldValue::Dec(scheduler_desired as u64) },
        Field { key: "desired_vcpus_before", value: FieldValue::Dec(before as u64) },
        Field { key: "desired_vcpus_after", value: FieldValue::Dec(after as u64) },
        Field { key: "max_vcpus", value: FieldValue::Dec(max_vcpus as u64) },
    ]
}

pub fn format_cpu_apply_response(word: &'static str, scheduler_desired: u8, before: u8, after: u8, max_vcpus: u8) -> (r: String)
    ensures
        r@ == "scheduler_cpu_apply"@ + fields_text(cpu_apply_fields(word, scheduler_desired, before, after, max_vcpus)),
{
    let v = vec![
        Field { key: "cpu_action", value: FieldValue::Text(word) },
        Field { key: "scheduler_desired_vcpus", value: FieldValue::Dec(scheduler_desired as u64) },
        Field { key: "desired_vcpus_before", value: FieldValue::Dec(before as u64) },
        Field { key: "desired_vcpus_after", value: FieldValue::Dec(after as u64) },
        Field { key: "max_vcpus", value: FieldValue::Dec(max_vcpus as u64) },
    ];
    assert(v@ =~= cpu_apply_fields(word, scheduler_desired, before, after, max_vcpus));
    crate::report::render("scheduler_cpu_apply", &v)
}

} // verus!
