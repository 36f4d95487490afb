//! The microVM control server's logic: its settings read from the
//! environment, the checks on them, the commands that change them, and the
//! steps of each request and of each periodic poll. A step that needs the
//! hypervisor hands out an [`InstanceCall`]; the caller performs it and hands
//! the reply back.
use vstd::prelude::*;
use crate::command::{same_result, num_word, num_word_exec, str_string};
use crate::scheduler::{
    ControlState, HyperAllocPolicy, HyperAllocMetricsSampler, HyperAllocPolicyEvaluator,
    HyperAllocSchedulerDryRun, HYPERALLOC_POLICY_DEFAULT_INTERVAL_MS,
    HYPERALLOC_POLICY_MIN_INTERVAL_MS, HYPERALLOC_METRICS_MIN_INTERVAL_MS,
    HYPERALLOC_EVAL_DEFAULT_TARGET_HUGE_FRAMES, HYPERALLOC_EVAL_MIN_INTERVAL_MS,
    HYPERALLOC_SCHEDULER_MIN_INTERVAL_MS, HYPERALLOC_SCHEDULER_DEFAULT_TARGET_HUGE_FRAMES,
    HYPERALLOC_SCHEDULER_MAX_VFIO_QUEUE_GOAL, HYPERALLOC_SCHEDULER_MAX_BLOCK_IO_WEIGHT,
    HYPERALLOC_SCHEDULER_MAX_EQGATE_DRAIN_BUDGET,
    HYPERALLOC_SCHEDULER_ADAPTIVE_DEFAULT_VFIO_QUEUE_CAP,
};
use crate::text::{dec, push_dec, push_str, str_chars};
use crate::report::fields_text;
use crate::scheduler::{snapshot, hyperalloc_runtime_snapshot};
use crate::control_report::{
    policy_set_fields, metrics_set_fields, eval_set_fields, scheduler_set_fields,
    scheduler_status_fields, scheduler_io_set_fields, scheduler_auto_set_fields,
    scheduler_eqgate_auto_set_fields, scheduler_adaptive_set_fields, policy_status_fields,
    format_hyperalloc_policy_set_response, format_hyperalloc_metrics_set_response,
    format_hyperalloc_eval_set_response, format_hyperalloc_scheduler_set_response,
    format_scheduler_status_line, format_scheduler_io_set_response,
    format_scheduler_cpu_auto_set_response, format_scheduler_eqgate_auto_set_response,
    format_scheduler_adaptive_set_response, format_policy_status_line,
    format_scheduler_auto_set_response,
};

verus! {

/// `x`, raised to `min` when it is below.
pub open spec fn at_least(x: u64, min: u64) -> u64 {
    if x < min {
        min
    } else {
        x
    }
}

pub fn clamp_hyperalloc_policy_interval_ms(interval_ms: u64) -> (r: u64)
    ensures
        r == at_least(interval_ms, HYPERALLOC_POLICY_MIN_INTERVAL_MS),
{
    if interval_ms < HYPERALLOC_POLICY_MIN_INTERVAL_MS {
        HYPERALLOC_POLICY_MIN_INTERVAL_MS
    } else {
        interval_ms
    }
}

pub fn clamp_hyperalloc_metrics_interval_ms(interval_ms: u64) -> (r: u64)
    ensures
        r == at_least(interval_ms, HYPERALLOC_METRICS_MIN_INTERVAL_MS),
{
    if interval_ms < HYPERALLOC_METRICS_MIN_INTERVAL_MS {
        HYPERALLOC_METRICS_MIN_INTERVAL_MS
    } else {
        interval_ms
    }
}

pub fn clamp_hyperalloc_eval_interval_ms(interval_ms: u64) -> (r: u64)
    ensures
        r == at_least(interval_ms, HYPERALLOC_EVAL_MIN_INTERVAL_MS),
{
    if interval_ms < HYPERALLOC_EVAL_MIN_INTERVAL_MS {
        HYPERALLOC_EVAL_MIN_INTERVAL_MS
    } else {
        interval_ms
    }
}

pub fn clamp_hyperalloc_scheduler_interval_ms(interval_ms: u64) -> (r: u64)
    ensures
        r == at_least(interval_ms, HYPERALLOC_SCHEDULER_MIN_INTERVAL_MS),
{
    if interval_ms < HYPERALLOC_SCHEDULER_MIN_INTERVAL_MS {
        HYPERALLOC_SCHEDULER_MIN_INTERVAL_MS
    } else {
        interval_ms
    }
}

/// `a`, the number `n`, `b`, the number `m`.
pub open spec fn text_nums(a: Seq<char>, n: nat, b: Seq<char>, m: nat) -> Seq<char> {
    a + dec(n) + b + dec(m)
}

pub(crate) fn text_nums_exec(a: &str, n: u64, b: &str, m: u64) -> (s: String)
    ensures
        s@ == text_nums(a@, n as nat, b@, m as nat),
{
    let mut s = String::new();
    push_str(&mut s, a);
    push_dec(&mut s, n);
    push_str(&mut s, b);
    push_dec(&mut s, m);
    s
}

/// A desired vCPU count between one and the maximum.
pub open spec fn desired_vcpus_check(desired: u8, max_vcpus: u8) -> Result<(), Seq<char>> {
    if desired == 0 || desired > max_vcpus {
        Err(text_nums("scheduler desired vCPU count "@, desired as nat,
            " outside allowed range 1..="@, max_vcpus as nat))
    } else {
        Ok(())
    }
}

pub fn validate_scheduler_desired_vcpus(desired_vcpus: u8, max_vcpus: u8) -> (r: Result<(), String>)
    ensures
        same_result(r, desired_vcpus_check(desired_vcpus, max_vcpus)),
{
    if desired_vcpus == 0 || desired_vcpus > max_vcpus {
        Err(text_nums_exec("scheduler desired vCPU count ", desired_vcpus as u64,
            " outside allowed range 1..=", max_vcpus as u64))
    } else {
        Ok(())
    }
}

/// I/O goals within their limits.
pub open spec fn io_goals_check(vfio_queue_goal: u16, block_io_weight: u16) -> Result<(), Seq<char>> {
    if vfio_queue_goal > HYPERALLOC_SCHEDULER_MAX_VFIO_QUEUE_GOAL {
        Err(text_nums("scheduler VFIO queue goal "@, vfio_queue_goal as nat,
            " outside allowed range 0..="@, HYPERALLOC_SCHEDULER_MAX_VFIO_QUEUE_GOAL as nat))
    } else if block_io_weight > HYPERALLOC_SCHEDULER_MAX_BLOCK_IO_WEIGHT {
        Err(text_nums("scheduler block I/O weight "@, block_io_weight as nat,
            " outside allowed range 0..="@, HYPERALLOC_SCHEDULER_MAX_BLOCK_IO_WEIGHT as nat))
    } else {
        Ok(())
    }
}

pub fn validate_scheduler_io_goals(vfio_queue_goal: u16, block_io_weight: u16) -> (r: Result<(), String>)
    ensures
        same_result(r, io_goals_check(vfio_queue_goal, block_io_weight)),
{
    if vfio_queue_goal > HYPERALLOC_SCHEDULER_MAX_VFIO_QUEUE_GOAL {
        Err(text_nums_exec("scheduler VFIO queue goal ", vfio_queue_goal as u64,
            " outside allowed range 0..=", HYPERALLOC_SCHEDULER_MAX_VFIO_QUEUE_GOAL as u64))
    } else if block_io_weight > HYPERALLOC_SCHEDULER_MAX_BLOCK_IO_WEIGHT {
        Err(text_nums_exec("scheduler block I/O weight ", block_io_weight as u64,
            " outside allowed range 0..=", HYPERALLOC_SCHEDULER_MAX_BLOCK_IO_WEIGHT as u64))
    } else {
        Ok(())
    }
}

/// An adaptive VFIO queue cap within the queue-goal limit.
pub open spec fn adaptive_cap_check(cap: u16) -> Result<(), Seq<char>> {
    if cap > HYPERALLOC_SCHEDULER_MAX_VFIO_QUEUE_GOAL {
        Err(text_nums("scheduler adaptive VFIO queue cap "@, cap as nat,
            " outside allowed range 0..="@, HYPERALLOC_SCHEDULER_MAX_VFIO_QUEUE_GOAL as nat))
    } else {
        Ok(())
    }
}

pub fn validate_scheduler_adaptive_vfio_queue_cap(cap: u16) -> (r: Result<(), String>)
    ensures
        same_result(r, adaptive_cap_check(cap)),
{
    if cap > HYPERALLOC_SCHEDULER_MAX_VFIO_QUEUE_GOAL {
        Err(text_nums_exec("scheduler adaptive VFIO queue cap ", cap as u64,
            " outside allowed range 0..=", HYPERALLOC_SCHEDULER_MAX_VFIO_QUEUE_GOAL as u64))
    } else {
        Ok(())
    }
}

/// An EqGate drain budget within its limit.
pub open spec fn drain_budget_check(budget: u32) -> Result<(), Seq<char>> {
    if budget > HYPERALLOC_SCHEDULER_MAX_EQGATE_DRAIN_BUDGET {
        Err(text_nums("scheduler EqGate drain budget "@, budget as nat,
            " outside allowed range 0..="@, HYPERALLOC_SCHEDULER_MAX_EQGATE_DRAIN_BUDGET as nat))
    } else {
        Ok(())
    }
}

pub fn validate_scheduler_eqgate_drain_budget(budget: u32) -> (r: Result<(), String>)
    ensures
        same_result(r, drain_budget_check(budget)),
{
    if budget > HYPERALLOC_SCHEDULER_MAX_EQGATE_DRAIN_BUDGET {
        Err(text_nums_exec("scheduler EqGate drain budget ", budget as u64,
            " outside allowed range 0..=", HYPERALLOC_SCHEDULER_MAX_EQGATE_DRAIN_BUDGET as u64))
    } else {
        Ok(())
    }
}

/// An environment variable as the process found it: unset, set but not
/// readable as text (with the message saying why), or set.
pub enum EnvValue {
    Absent,
    Unreadable(String),
    Present(String),
}

/// `None` when unset, else the text or the message of why it is unreadable.
pub open spec fn env_view(e: &EnvValue) -> Option<Result<Seq<char>, Seq<char>>> {
    match e {
        EnvValue::Absent => None,
        EnvValue::Unreadable(m) => Some(Err(m@)),
        EnvValue::Present(v) => Some(Ok(v@)),
    }
}

/// A numeric variable: nothing when unset, else its decimal value no larger
/// than `max`, or `invalid <name>: <why>`.
pub open spec fn env_num(e: Option<Result<Seq<char>, Seq<char>>>, name: Seq<char>, max: u64) -> Option<
    Result<u64, Seq<char>>,
> {
    match e {
        None => None,
        Some(Err(m)) => Some(Err("invalid "@ + name + ": "@ + m)),
        Some(Ok(v)) => Some(num_word(v, max, "invalid "@ + name)),
    }
}

/// A numeric variable with a default for when it is unset.
pub open spec fn env_or(e: Option<Result<Seq<char>, Seq<char>>>, name: Seq<char>, max: u64, default: u64) -> Result<
    u64,
    Seq<char>,
> {
    match env_num(e, name, max) {
        None => Ok(default),
        Some(r) => r,
    }
}

fn invalid_prefix(name: &str) -> (s: String)
    ensures
        s@ == "invalid "@ + name@,
{
    let mut s = String::new();
    push_str(&mut s, "invalid ");
    push_str(&mut s, name);
    s
}

/// Reads a numeric variable (see [`env_num`]).
pub fn env_u64(e: &EnvValue, name: &str, max: u64) -> (r: Option<Result<u64, String>>)
    ensures
        match env_num(env_view(e), name@, max) {
            None => r is None,
            Some(x) => r is Some && same_result(r->0, x),
        },
        r matches Some(Ok(v)) ==> v <= max,
{
    match e {
        EnvValue::Absent => None,
        EnvValue::Unreadable(m) => {
            let mut s = invalid_prefix(name);
            push_str(&mut s, ": ");
            push_str(&mut s, m.as_str());
            Some(Err(s))
        },
        EnvValue::Present(v) => {
            let chars = str_chars(v.as_str());
            let label = invalid_prefix(name);
            Some(num_word_exec(&chars, max, label.as_str()))
        },
    }
}

fn env_u64_or(e: &EnvValue, name: &str, max: u64, default: u64) -> (r: Result<u64, String>)
    ensures
        same_result(r, env_or(env_view(e), name@, max, default)),
        r matches Ok(v) ==> v <= max || v == default,
{
    match env_u64(e, name, max) {
        None => Ok(default),
        Some(r) => r,
    }
}

/// A 16-bit scheduler variable with a default.
pub open spec fn scheduler_u16_env(e: Option<Result<Seq<char>, Seq<char>>>, name: Seq<char>, default: u16) -> Result<
    u16,
    Seq<char>,
> {
    match env_or(e, name, 0xffff, default as u64) {
        Ok(v) => Ok(v as u16),
        Err(m) => Err(m),
    }
}

pub fn parse_scheduler_u16_env(e: &EnvValue, name: &str, default_value: u16) -> (r: Result<u16, String>)
    ensures
        same_result(r, scheduler_u16_env(env_view(e), name@, default_value)),
{
    match env_u64_or(e, name, 0xffff, default_value as u64) {
        Ok(v) => Ok(v as u16),
        Err(m) => Err(m),
    }
}

/// A 32-bit scheduler variable with a default.
pub open spec fn scheduler_u32_env(e: Option<Result<Seq<char>, Seq<char>>>, name: Seq<char>, default: u32) -> Result<
    u32,
    Seq<char>,
> {
    match env_or(e, name, 0xffff_ffff, default as u64) {
        Ok(v) => Ok(v as u32),
        Err(m) => Err(m),
    }
}

pub fn parse_scheduler_u32_env(e: &EnvValue, name: &str, default_value: u32) -> (r: Result<u32, String>)
    ensures
        same_result(r, scheduler_u32_env(env_view(e), name@, default_value)),
{
    match env_u64_or(e, name, 0xffff_ffff, default_value as u64) {
        Ok(v) => Ok(v as u32),
        Err(m) => Err(m),
    }
}

/// A `0`/`1` scheduler variable with a default.
pub open spec fn scheduler_bool_env(e: Option<Result<Seq<char>, Seq<char>>>, name: Seq<char>, default: bool) -> Result<
    bool,
    Seq<char>,
> {
    match e {
        None => Ok(default),
        Some(Err(m)) => Err("invalid "@ + name + ": "@ + m),
        Some(Ok(v)) => if v == "0"@ {
            Ok(false)
        } else if v == "1"@ {
            Ok(true)
        } else {
            Err("invalid "@ + name + ": must be 0 or 1"@)
        },
    }
}

pub fn parse_scheduler_bool_env(e: &EnvValue, name: &str, default_value: bool) -> (r: Result<bool, String>)
    ensures
        same_result(r, scheduler_bool_env(env_view(e), name@, default_value)),
{
    match e {
        EnvValue::Absent => Ok(default_value),
        EnvValue::Unreadable(m) => {
            let mut s = invalid_prefix(name);
            push_str(&mut s, ": ");
            push_str(&mut s, m.as_str());
            Err(s)
        },
        EnvValue::Present(v) => {
            let chars = str_chars(v.as_str());
            if crate::text::chars_eq_str(&chars, "0") {
                Ok(false)
            } else if crate::text::chars_eq_str(&chars, "1") {
                Ok(true)
            } else {
                let mut s = invalid_prefix(name);
                push_str(&mut s, ": must be 0 or 1");
                Err(s)
            }
        },
    }
}

/// The adaptive VFIO queue cap: its variable, defaulting to one, within the
/// queue-goal limit.
pub open spec fn adaptive_cap_env(e: Option<Result<Seq<char>, Seq<char>>>) -> Result<u16, Seq<char>> {
    match scheduler_u16_env(e, "AXCLI_HYPERALLOC_SCHEDULER_ADAPTIVE_VFIO_QUEUE_CAP"@,
        HYPERALLOC_SCHEDULER_ADAPTIVE_DEFAULT_VFIO_QUEUE_CAP) {
        Err(m) => Err(m),
        Ok(cap) => match adaptive_cap_check(cap) {
            Err(m) => Err(m),
            Ok(_) => Ok(cap),
        },
    }
}

pub fn parse_scheduler_adaptive_vfio_queue_cap_env(e: &EnvValue) -> (r: Result<u16, String>)
    ensures
        same_result(r, adaptive_cap_env(env_view(e))),
{
    let cap = parse_scheduler_u16_env(e, "AXCLI_HYPERALLOC_SCHEDULER_ADAPTIVE_VFIO_QUEUE_CAP",
        HYPERALLOC_SCHEDULER_ADAPTIVE_DEFAULT_VFIO_QUEUE_CAP)?;
    validate_scheduler_adaptive_vfio_queue_cap(cap)?;
    Ok(cap)
}

/// The host policy from its variables: off unless a nonzero target is set;
/// the interval defaults and is raised to the minimum.
pub open spec fn policy_from_env(
    target: Option<Result<Seq<char>, Seq<char>>>,
    interval: Option<Result<Seq<char>, Seq<char>>>,
    now: u64,
) -> Result<Option<HyperAllocPolicy>, Seq<char>> {
    match env_num(target, "AXCLI_HYPERALLOC_POLICY_TARGET_HUGE_FRAMES"@, u64::MAX) {
        None => Ok(None),
        Some(Err(m)) => Err(m),
        Some(Ok(t)) => if t == 0 {
            Ok(None)
        } else {
            match env_or(interval, "AXCLI_HYPERALLOC_POLICY_INTERVAL_MS"@, u64::MAX,
                HYPERALLOC_POLICY_DEFAULT_INTERVAL_MS) {
                Err(m) => Err(m),
                Ok(i) => Ok(Some(HyperAllocPolicy {
                    target_huge_frames: t,
                    interval_ms: at_least(i, HYPERALLOC_POLICY_MIN_INTERVAL_MS),
                    last_tick_ms: now,
                    last_issued_seq: 0,
                    last_completed_seq: 0,
                })),
            }
        },
    }
}

pub fn parse_hyperalloc_policy(target: &EnvValue, interval: &EnvValue, now: u64) -> (r: Result<Option<HyperAllocPolicy>, String>)
    ensures
        same_result(r, policy_from_env(env_view(target), env_view(interval), now)),
{
    let t = match env_u64(target, "AXCLI_HYPERALLOC_POLICY_TARGET_HUGE_FRAMES", u64::MAX) {
        None => return Ok(None),
        Some(r) => r?,
    };
    if t == 0 {
        return Ok(None);
    }
    let i = env_u64_or(interval, "AXCLI_HYPERALLOC_POLICY_INTERVAL_MS", u64::MAX,
        HYPERALLOC_POLICY_DEFAULT_INTERVAL_MS)?;
    Ok(Some(HyperAllocPolicy {
        target_huge_frames: t,
        interval_ms: clamp_hyperalloc_policy_interval_ms(i),
        last_tick_ms: now,
        last_issued_seq: 0,
        last_completed_seq: 0,
    }))
}

/// The metrics sampler from its variable: off unless a nonzero interval is set.
pub open spec fn metrics_from_env(interval: Option<Result<Seq<char>, Seq<char>>>, now: u64) -> Result<
    Option<HyperAllocMetricsSampler>,
    Seq<char>,
> {
    match env_num(interval, "AXCLI_HYPERALLOC_METRICS_INTERVAL_MS"@, u64::MAX) {
        None => Ok(None),
        Some(Err(m)) => Err(m),
        Some(Ok(i)) => if i == 0 {
            Ok(None)
        } else {
            Ok(Some(HyperAllocMetricsSampler {
                interval_ms: at_least(i, HYPERALLOC_METRICS_MIN_INTERVAL_MS),
                last_sample_ms: now,
            }))
        },
    }
}

pub fn parse_hyperalloc_metrics_sampler(interval: &EnvValue, now: u64) -> (r: Result<Option<HyperAllocMetricsSampler>, String>)
    ensures
        same_result(r, metrics_from_env(env_view(interval), now)),
{
    let i = match env_u64(interval, "AXCLI_HYPERALLOC_METRICS_INTERVAL_MS", u64::MAX) {
        None => return Ok(None),
        Some(r) => r?,
    };
    if i == 0 {
        return Ok(None);
    }
    Ok(Some(HyperAllocMetricsSampler {
        interval_ms: clamp_hyperalloc_metrics_interval_ms(i),
        last_sample_ms: now,
    }))
}

/// The policy evaluator from its variables: off unless a nonzero interval
/// is set; the target defaults.
pub open spec fn evaluator_from_env(
    interval: Option<Result<Seq<char>, Seq<char>>>,
    target: Option<Result<Seq<char>, Seq<char>>>,
    now: u64,
) -> Result<Option<HyperAllocPolicyEvaluator>, Seq<char>> {
    match env_num(interval, "AXCLI_HYPERALLOC_EVAL_INTERVAL_MS"@, u64::MAX) {
        None => Ok(None),
        Some(Err(m)) => Err(m),
        Some(Ok(i)) => if i == 0 {
            Ok(None)
        } else {
            match env_or(target, "AXCLI_HYPERALLOC_EVAL_TARGET_HUGE_FRAMES"@, u64::MAX,
                HYPERALLOC_EVAL_DEFAULT_TARGET_HUGE_FRAMES) {
                Err(m) => Err(m),
                Ok(t) => Ok(Some(HyperAllocPolicyEvaluator {
                    interval_ms: at_least(i, HYPERALLOC_EVAL_MIN_INTERVAL_MS),
                    last_eval_ms: now,
                    target_huge_frames: t,
                })),
            }
        },
    }
}

pub fn parse_hyperalloc_policy_evaluator(interval: &EnvValue, target: &EnvValue, now: u64) -> (r: Result<Option<HyperAllocPolicyEvaluator>, String>)
    ensures
        same_result(r, evaluator_from_env(env_view(interval), env_view(target), now)),
{
    let i = match env_u64(interval, "AXCLI_HYPERALLOC_EVAL_INTERVAL_MS", u64::MAX) {
        None => return Ok(None),
        Some(r) => r?,
    };
    if i == 0 {
        return Ok(None);
    }
    let t = env_u64_or(target, "AXCLI_HYPERALLOC_EVAL_TARGET_HUGE_FRAMES", u64::MAX,
        HYPERALLOC_EVAL_DEFAULT_TARGET_HUGE_FRAMES)?;
    Ok(Some(HyperAllocPolicyEvaluator {
        interval_ms: clamp_hyperalloc_eval_interval_ms(i),
        last_eval_ms: now,
        target_huge_frames: t,
    }))
}

/// The scheduler's variables.
pub struct SchedulerEnv {
    pub interval: EnvValue,
    pub target: EnvValue,
    pub desired_vcpus: EnvValue,
    pub vfio_queue_goal: EnvValue,
    pub block_io_weight: EnvValue,
    pub eqgate_drain_budget: EnvValue,
    pub adaptive: EnvValue,
    pub adaptive_vfio_queue_cap: EnvValue,
}

/// The scheduler from its variables: off unless a nonzero interval is set;
/// then each setting in turn, each failing with its own message.
pub open spec fn scheduler_from_env(env: &SchedulerEnv, default_vcpus: u8, max_vcpus: u8, now: u64) -> Result<
    Option<HyperAllocSchedulerDryRun>,
    Seq<char>,
> {
    match env_num(env_view(&env.interval), "AXCLI_HYPERALLOC_SCHEDULER_INTERVAL_MS"@, u64::MAX) {
        None => Ok(None),
        Some(Err(m)) => Err(m),
        Some(Ok(i)) => if i == 0 {
            Ok(None)
        } else {
            scheduler_settings_from_env(env, default_vcpus, max_vcpus, now, at_least(i, HYPERALLOC_SCHEDULER_MIN_INTERVAL_MS))
        },
    }
}

/// The settings after the interval (see [`scheduler_from_env`]).
pub open spec fn scheduler_settings_from_env(env: &SchedulerEnv, default_vcpus: u8, max_vcpus: u8, now: u64, interval_ms: u64) -> Result<
    Option<HyperAllocSchedulerDryRun>,
    Seq<char>,
> {
    match env_or(env_view(&env.target), "AXCLI_HYPERALLOC_SCHEDULER_TARGET_HUGE_FRAMES"@, u64::MAX,
        HYPERALLOC_SCHEDULER_DEFAULT_TARGET_HUGE_FRAMES) {
        Err(m) => Err(m),
        Ok(t) => if t == 0 {
            Err("AXCLI_HYPERALLOC_SCHEDULER_TARGET_HUGE_FRAMES must be nonzero"@)
        } else {
            match env_or(env_view(&env.desired_vcpus), "AXCLI_HYPERALLOC_SCHEDULER_DESIRED_VCPUS"@, 255, default_vcpus as u64) {
                Err(m) => Err(m),
                Ok(d) => match desired_vcpus_check(d as u8, max_vcpus) {
                    Err(m) => Err(m),
                    Ok(_) => match scheduler_u16_env(env_view(&env.vfio_queue_goal), "AXCLI_HYPERALLOC_SCHEDULER_VFIO_QUEUE_GOAL"@, 0) {
                        Err(m) => Err(m),
                        Ok(vq) => match scheduler_u16_env(env_view(&env.block_io_weight), "AXCLI_HYPERALLOC_SCHEDULER_BLOCK_IO_WEIGHT"@, 0) {
                            Err(m) => Err(m),
                            Ok(bw) => match io_goals_check(vq, bw) {
                                Err(m) => Err(m),
                                Ok(_) => match scheduler_u32_env(env_view(&env.eqgate_drain_budget), "AXCLI_HYPERALLOC_SCHEDULER_EQGATE_DRAIN_BUDGET"@, 0) {
                                    Err(m) => Err(m),
                                    Ok(b) => match drain_budget_check(b) {
                                        Err(m) => Err(m),
                                        Ok(_) => match scheduler_bool_env(env_view(&env.adaptive), "AXCLI_HYPERALLOC_SCHEDULER_ADAPTIVE"@, false) {
                                            Err(m) => Err(m),
                                            Ok(a) => match adaptive_cap_env(env_view(&env.adaptive_vfio_queue_cap)) {
                                                Err(m) => Err(m),
                                                Ok(cap) => Ok(Some(HyperAllocSchedulerDryRun {
                                                    interval_ms,
                                                    last_tick_ms: now,
                                                    target_huge_frames: t,
                                                    desired_vcpus: d as u8,
                                                    vfio_queue_goal: vq,
                                                    block_io_weight: bw,
                                                    eqgate_drain_budget: b,
                                                    auto_apply: false,
                                                    cpu_auto_apply: false,
                                                    eqgate_auto_drain: false,
                                                    adaptive: a,
                                                    adaptive_vfio_queue_cap: cap,
                                                })),
                                            },
                                        },
                                    },
                                },
                            },
                        },
                    },
                },
            }
        },
    }
}

pub fn parse_hyperalloc_scheduler(env: &SchedulerEnv, default_vcpus: u8, max_vcpus: u8, now: u64) -> (r: Result<Option<HyperAllocSchedulerDryRun>, String>)
    ensures
        same_result(r, scheduler_from_env(env, default_vcpus, max_vcpus, now)),
{
    let i = match env_u64(&env.interval, "AXCLI_HYPERALLOC_SCHEDULER_INTERVAL_MS", u64::MAX) {
        None => return Ok(None),
        Some(r) => r?,
    };
    if i == 0 {
        return Ok(None);
    }
    let interval_ms = clamp_hyperalloc_scheduler_interval_ms(i);
    let t = env_u64_or(&env.target, "AXCLI_HYPERALLOC_SCHEDULER_TARGET_HUGE_FRAMES", u64::MAX,
        HYPERALLOC_SCHEDULER_DEFAULT_TARGET_HUGE_FRAMES)?;
    if t == 0 {
        return Err(str_string("AXCLI_HYPERALLOC_SCHEDULER_TARGET_HUGE_FRAMES must be nonzero"));
    }
    let d = env_u64_or(&env.desired_vcpus, "AXCLI_HYPERALLOC_SCHEDULER_DESIRED_VCPUS", 255,
        default_vcpus as u64)?;
    let d = d as u8;
    validate_scheduler_desired_vcpus(d, max_vcpus)?;
    let vq = parse_scheduler_u16_env(&env.vfio_queue_goal, "AXCLI_HYPERALLOC_SCHEDULER_VFIO_QUEUE_GOAL", 0)?;
    let bw = parse_scheduler_u16_env(&env.block_io_weight, "AXCLI_HYPERALLOC_SCHEDULER_BLOCK_IO_WEIGHT", 0)?;
    validate_scheduler_io_goals(vq, bw)?;
    let b = parse_scheduler_u32_env(&env.eqgate_drain_budget, "AXCLI_HYPERALLOC_SCHEDULER_EQGATE_DRAIN_BUDGET", 0)?;
    validate_scheduler_eqgate_drain_budget(b)?;
    let a = parse_scheduler_bool_env(&env.adaptive, "AXCLI_HYPERALLOC_SCHEDULER_ADAPTIVE", false)?;
    let cap = parse_scheduler_adaptive_vfio_queue_cap_env(&env.adaptive_vfio_queue_cap)?;
    Ok(Some(HyperAllocSchedulerDryRun {
        interval_ms,
        last_tick_ms: now,
        target_huge_frames: t,
        desired_vcpus: d,
        vfio_queue_goal: vq,
        block_io_weight: bw,
        eqgate_drain_budget: b,
        auto_apply: false,
        cpu_auto_apply: false,
        eqgate_auto_drain: false,
        adaptive: a,
        adaptive_vfio_queue_cap: cap,
    }))
}


/// The host policy after a policy command: off for a zero target; otherwise
/// the target and the (defaulted, raised) interval, with the timer restarted
/// when either changed and the sequence numbers forgotten when the target did.
pub open spec fn policy_after_set(p: Option<HyperAllocPolicy>, target: u64, interval_ms: Option<u64>, now: u64) -> Option<HyperAllocPolicy> {
    if target == 0 {
        None
    } else {
        let iv = at_least(
            match interval_ms {
                Some(i) => i,
                None => HYPERALLOC_POLICY_DEFAULT_INTERVAL_MS,
            },
            HYPERALLOC_POLICY_MIN_INTERVAL_MS,
        );
        match p {
            Some(p) => {
                let tc = p.target_huge_frames != target;
                let ic = p.interval_ms != iv;
                Some(HyperAllocPolicy {
                    target_huge_frames: target,
                    interval_ms: iv,
                    last_tick_ms: if tc || ic { now } else { p.last_tick_ms },
                    last_issued_seq: if tc { 0 } else { p.last_issued_seq },
                    last_completed_seq: if tc { 0 } else { p.last_completed_seq },
                })
            },
            None => Some(HyperAllocPolicy {
                target_huge_frames: target,
                interval_ms: iv,
                last_tick_ms: now,
                last_issued_seq: 0,
                last_completed_seq: 0,
            }),
        }
    }
}

/// Sets or clears the host policy and answers with its settings.
pub fn set_hyperalloc_policy(st: &mut ControlState, target_huge_frames: u64, interval_ms: Option<u64>, now: u64) -> (r: String)
    ensures
        *final(st) == (ControlState { policy: policy_after_set(old(st).policy, target_huge_frames, interval_ms, now), ..*old(st) }),
        r@ == "policy_set"@ + fields_text(policy_set_fields(snapshot(*final(st), now))),
{
    if target_huge_frames == 0 {
        st.policy = None;
    } else {
        let iv = clamp_hyperalloc_policy_interval_ms(
            match interval_ms {
                Some(i) => i,
                None => HYPERALLOC_POLICY_DEFAULT_INTERVAL_MS,
            },
        );
        match st.policy {
            Some(p) => {
                let tc = p.target_huge_frames != target_huge_frames;
                let ic = p.interval_ms != iv;
                st.policy = Some(HyperAllocPolicy {
                    target_huge_frames,
                    interval_ms: iv,
                    last_tick_ms: if tc || ic { now } else { p.last_tick_ms },
                    last_issued_seq: if tc { 0 } else { p.last_issued_seq },
                    last_completed_seq: if tc { 0 } else { p.last_completed_seq },
                });
            },
            None => {
                st.policy = Some(HyperAllocPolicy {
                    target_huge_frames,
                    interval_ms: iv,
                    last_tick_ms: now,
                    last_issued_seq: 0,
                    last_completed_seq: 0,
                });
            },
        }
    }
    let s = hyperalloc_runtime_snapshot(st, now);
    format_hyperalloc_policy_set_response(&s)
}

/// The metrics sampler after a metrics command: off for a zero interval,
/// else the raised interval, with the timer restarted when it changed.
pub open spec fn metrics_after_set(m: Option<HyperAllocMetricsSampler>, interval_ms: u64, now: u64) -> Option<HyperAllocMetricsSampler> {
    if interval_ms == 0 {
        None
    } else {
        let iv = at_least(interval_ms, HYPERALLOC_METRICS_MIN_INTERVAL_MS);
        match m {
            Some(m) => Some(HyperAllocMetricsSampler {
                interval_ms: iv,
                last_sample_ms: if m.interval_ms != iv { now } else { m.last_sample_ms },
            }),
            None => Some(HyperAllocMetricsSampler { interval_ms: iv, last_sample_ms: now }),
        }
    }
}

/// Sets or clears the metrics sampler and answers with its settings.
pub fn set_hyperalloc_metrics(st: &mut ControlState, interval_ms: u64, now: u64) -> (r: String)
    ensures
        *final(st) == (ControlState { metrics: metrics_after_set(old(st).metrics, interval_ms, now), ..*old(st) }),
        r@ == "metrics_set"@ + fields_text(metrics_set_fields(snapshot(*final(st), now))),
{
    if interval_ms == 0 {
        st.metrics = None;
    } else {
        let iv = clamp_hyperalloc_metrics_interval_ms(interval_ms);
        match st.metrics {
            Some(m) => {
                st.metrics = Some(HyperAllocMetricsSampler {
                    interval_ms: iv,
                    last_sample_ms: if m.interval_ms != iv { now } else { m.last_sample_ms },
                });
            },
            None => {
                st.metrics = Some(HyperAllocMetricsSampler { interval_ms: iv, last_sample_ms: now });
            },
        }
    }
    let s = hyperalloc_runtime_snapshot(st, now);
    format_hyperalloc_metrics_set_response(&s)
}

/// The policy evaluator after an evaluator command: off for a zero interval,
/// else the raised interval and the (defaulted) target, with the timer
/// restarted when either changed.
pub open spec fn evaluator_after_set(e: Option<HyperAllocPolicyEvaluator>, interval_ms: u64, target: Option<u64>, now: u64) -> Option<HyperAllocPolicyEvaluator> {
    if interval_ms == 0 {
        None
    } else {
        let iv = at_least(interval_ms, HYPERALLOC_EVAL_MIN_INTERVAL_MS);
        let t = match target {
            Some(t) => t,
            None => HYPERALLOC_EVAL_DEFAULT_TARGET_HUGE_FRAMES,
        };
        match e {
            Some(e) => Some(HyperAllocPolicyEvaluator {
                interval_ms: iv,
                last_eval_ms: if e.interval_ms != iv || e.target_huge_frames != t { now } else { e.last_eval_ms },
                target_huge_frames: t,
            }),
            None => Some(HyperAllocPolicyEvaluator { interval_ms: iv, last_eval_ms: now, target_huge_frames: t }),
        }
    }
}

/// Sets or clears the policy evaluator and answers with its settings.
pub fn set_hyperalloc_policy_evaluator(st: &mut ControlState, interval_ms: u64, target_huge_frames: Option<u64>, now: u64) -> (r: String)
    ensures
        *final(st) == (ControlState { evaluator: evaluator_after_set(old(st).evaluator, interval_ms, target_huge_frames, now), ..*old(st) }),
        r@ == "eval_set"@ + fields_text(eval_set_fields(snapshot(*final(st), now))),
{
    if interval_ms == 0 {
        st.evaluator = None;
    } else {
        let iv = clamp_hyperalloc_eval_interval_ms(interval_ms);
        let t = match target_huge_frames {
            Some(t) => t,
            None => HYPERALLOC_EVAL_DEFAULT_TARGET_HUGE_FRAMES,
        };
        match st.evaluator {
            Some(e) => {
                st.evaluator = Some(HyperAllocPolicyEvaluator {
                    interval_ms: iv,
                    last_eval_ms: if e.interval_ms != iv || e.target_huge_frames != t { now } else { e.last_eval_ms },
                    target_huge_frames: t,
                });
            },
            None => {
                st.evaluator = Some(HyperAllocPolicyEvaluator { interval_ms: iv, last_eval_ms: now, target_huge_frames: t });
            },
        }
    }
    let s = hyperalloc_runtime_snapshot(st, now);
    format_hyperalloc_eval_set_response(&s)
}

/// A result with its message as characters.
pub open spec fn result_view<T>(r: &Result<T, String>) -> Result<T, Seq<char>> {
    match r {
        Ok(v) => Ok(*v),
        Err(m) => Err(m@),
    }
}

/// The control state after a scheduler command. A zero interval turns the
/// scheduler off and zeroes the block backend's weight. Otherwise the
/// target and desired vCPU count default to the current ones (to the
/// default target and the instance's desired count for a new scheduler),
/// the target must be nonzero and the count valid, and a new scheduler takes
/// the adaptive cap that the environment gives.
pub open spec fn scheduler_after_set(
    st: ControlState,
    interval_ms: u64,
    target: Option<u64>,
    desired: Option<u8>,
    now: u64,
    cap: Result<u16, Seq<char>>,
) -> Result<ControlState, Seq<char>> {
    if interval_ms == 0 {
        Ok(ControlState {
            scheduler: None,
            block_backend_io_weight: if st.has_block_backend { 0 } else { st.block_backend_io_weight },
            ..st
        })
    } else {
        let iv = at_least(interval_ms, HYPERALLOC_SCHEDULER_MIN_INTERVAL_MS);
        match st.scheduler {
            Some(sc) => {
                let t = match target {
                    Some(t) => t,
                    None => sc.target_huge_frames,
                };
                let d = match desired {
                    Some(d) => d,
                    None => sc.desired_vcpus,
                };
                if t == 0 {
                    Err("scheduler target huge-frame count must be nonzero"@)
                } else {
                    match desired_vcpus_check(d, st.max_vcpus) {
                        Err(m) => Err(m),
                        Ok(_) => {
                            let changed = sc.interval_ms != iv || sc.target_huge_frames != t || sc.desired_vcpus != d;
                            Ok(ControlState {
                                scheduler: Some(HyperAllocSchedulerDryRun {
                                    interval_ms: iv,
                                    target_huge_frames: t,
                                    desired_vcpus: d,
                                    last_tick_ms: if changed { now } else { sc.last_tick_ms },
                                    ..sc
                                }),
                                ..st
                            })
                        },
                    }
                }
            },
            None => {
                let t = match target {
                    Some(t) => t,
                    None => HYPERALLOC_SCHEDULER_DEFAULT_TARGET_HUGE_FRAMES,
                };
                let d = match desired {
                    Some(d) => d,
                    None => st.desired_vcpus,
                };
                if t == 0 {
                    Err("scheduler target huge-frame count must be nonzero"@)
                } else {
                    match desired_vcpus_check(d, st.max_vcpus) {
                        Err(m) => Err(m),
                        Ok(_) => match cap {
                            Err(m) => Err(m),
                            Ok(c) => Ok(ControlState {
                                scheduler: Some(HyperAllocSchedulerDryRun {
                                    interval_ms: iv,
                                    last_tick_ms: now,
                                    target_huge_frames: t,
                                    desired_vcpus: d,
                                    vfio_queue_goal: 0,
                                    block_io_weight: 0,
                                    eqgate_drain_budget: 0,
                                    auto_apply: false,
                                    cpu_auto_apply: false,
                                    eqgate_auto_drain: false,
                                    adaptive: false,
                                    adaptive_vfio_queue_cap: c,
                                }),
                                ..st
                            }),
                        },
                    }
                }
            },
        }
    }
}

/// Whether a state transition that may fail left the state as its spec says
/// and answered with `text` on success.
pub open spec fn applied(old_st: ControlState, new_st: ControlState, r: Result<String, String>, s: Result<ControlState, Seq<char>>, text: spec_fn(ControlState) -> Seq<char>) -> bool {
    match s {
        Ok(t) => new_st == t && r is Ok && r->Ok_0@ == text(t),
        Err(m) => new_st == old_st && r is Err && r->Err_0@ == m,
    }
}

/// Sets or clears the scheduler and answers with its settings.
pub fn set_hyperalloc_scheduler(
    st: &mut ControlState,
    interval_ms: u64,
    target_huge_frames: Option<u64>,
    desired_vcpus: Option<u8>,
    now: u64,
    adaptive_cap: &Result<u16, String>,
) -> (r: Result<String, String>)
    ensures
        applied(*old(st), *final(st), r,
            scheduler_after_set(*old(st), interval_ms, target_huge_frames, desired_vcpus, now, result_view(adaptive_cap)),
            |t: ControlState| "scheduler_set"@ + fields_text(scheduler_set_fields(snapshot(t, now)))),
{
    if interval_ms == 0 {
        st.scheduler = None;
        if st.has_block_backend {
            st.block_backend_io_weight = 0;
        }
        let s = hyperalloc_runtime_snapshot(st, now);
        return Ok(format_hyperalloc_scheduler_set_response(&s));
    }
    let iv = clamp_hyperalloc_scheduler_interval_ms(interval_ms);
    match st.scheduler {
        Some(sc) => {
            let t = match target_huge_frames {
                Some(t) => t,
                None => sc.target_huge_frames,
            };
            let d = match desired_vcpus {
                Some(d) => d,
                None => sc.desired_vcpus,
            };
            if t == 0 {
                return Err(str_string("scheduler target huge-frame count must be nonzero"));
            }
            validate_scheduler_desired_vcpus(d, st.max_vcpus)?;
            let changed = sc.interval_ms != iv || sc.target_huge_frames != t || sc.desired_vcpus != d;
            st.scheduler = Some(HyperAllocSchedulerDryRun {
                interval_ms: iv,
                target_huge_frames: t,
                desired_vcpus: d,
                last_tick_ms: if changed { now } else { sc.last_tick_ms },
                ..sc
            });
        },
        None => {
            let t = match target_huge_frames {
                Some(t) => t,
                None => HYPERALLOC_SCHEDULER_DEFAULT_TARGET_HUGE_FRAMES,
            };
            let d = match desired_vcpus {
                Some(d) => d,
                None => st.desired_vcpus,
            };
            if t == 0 {
                return Err(str_string("scheduler target huge-frame count must be nonzero"));
            }
            validate_scheduler_desired_vcpus(d, st.max_vcpus)?;
            let c = match adaptive_cap {
                Ok(c) => *c,
                Err(m) => return Err(m.clone()),
            };
            st.scheduler = Some(HyperAllocSchedulerDryRun {
                interval_ms: iv,
                last_tick_ms: now,
                target_huge_frames: t,
                desired_vcpus: d,
                vfio_queue_goal: 0,
                block_io_weight: 0,
                eqgate_drain_budget: 0,
                auto_apply: false,
                cpu_auto_apply: false,
                eqgate_auto_drain: false,
                adaptive: false,
                adaptive_vfio_queue_cap: c,
            });
        },
    }
    let s = hyperalloc_runtime_snapshot(st, now);
    Ok(format_hyperalloc_scheduler_set_response(&s))
}

/// The control state after an I/O goal command: the goals must be within
/// their limits and the scheduler on; the block backend gets the weight and
/// the timer restarts when a goal changed.
pub open spec fn io_after_set(st: ControlState, vfio_queue_goal: u16, block_io_weight: u16, now: u64) -> Result<ControlState, Seq<char>> {
    match io_goals_check(vfio_queue_goal, block_io_weight) {
        Err(m) => Err(m),
        Ok(_) => match st.scheduler {
            None => Err("HyperAlloc scheduler dry-run is disabled"@),
            Some(sc) => {
                let changed = sc.vfio_queue_goal != vfio_queue_goal || sc.block_io_weight != block_io_weight;
                Ok(ControlState {
                    scheduler: Some(HyperAllocSchedulerDryRun {
                        vfio_queue_goal,
                        block_io_weight,
                        last_tick_ms: if changed { now } else { sc.last_tick_ms },
                        ..sc
                    }),
                    block_backend_io_weight: if st.has_block_backend { block_io_weight } else { st.block_backend_io_weight },
                    ..st
                })
            },
        },
    }
}

/// Sets the scheduler's I/O goals and answers with them.
pub fn set_hyperalloc_scheduler_io(st: &mut ControlState, vfio_queue_goal: u16, block_io_weight: u16, now: u64) -> (r: Result<String, String>)
    ensures
        applied(*old(st), *final(st), r, io_after_set(*old(st), vfio_queue_goal, block_io_weight, now),
            |t: ControlState| "scheduler_io_set"@ + fields_text(scheduler_io_set_fields(snapshot(t, now)))),
{
    validate_scheduler_io_goals(vfio_queue_goal, block_io_weight)?;
    let sc = match st.scheduler {
        Some(sc) => sc,
        None => return Err(str_string("HyperAlloc scheduler dry-run is disabled")),
    };
    let changed = sc.vfio_queue_goal != vfio_queue_goal || sc.block_io_weight != block_io_weight;
    st.scheduler = Some(HyperAllocSchedulerDryRun {
        vfio_queue_goal,
        block_io_weight,
        last_tick_ms: if changed { now } else { sc.last_tick_ms },
        ..sc
    });
    if st.has_block_backend {
        st.block_backend_io_weight = block_io_weight;
    }
    let s = hyperalloc_runtime_snapshot(st, now);
    Ok(format_scheduler_io_set_response(&s))
}

/// One of the scheduler's on/off switches.
#[derive(Clone, Copy, Debug, PartialEq, Eq, Structural)]
pub enum SchedulerSwitch {
    MemoryAutoApply,
    CpuAutoApply,
    EqgateAutoDrain,
    Adaptive,
}

/// The control state with one switch of the scheduler set, which must be on.
pub open spec fn switch_after_set(st: ControlState, which: SchedulerSwitch, enabled: bool) -> Result<ControlState, Seq<char>> {
    match st.scheduler {
        None => Err("HyperAlloc scheduler dry-run is disabled"@),
        Some(sc) => Ok(ControlState {
            scheduler: Some(match which {
                SchedulerSwitch::MemoryAutoApply => HyperAllocSchedulerDryRun { auto_apply: enabled, ..sc },
                SchedulerSwitch::CpuAutoApply => HyperAllocSchedulerDryRun { cpu_auto_apply: enabled, ..sc },
                SchedulerSwitch::EqgateAutoDrain => HyperAllocSchedulerDryRun { eqgate_auto_drain: enabled, ..sc },
                SchedulerSwitch::Adaptive => HyperAllocSchedulerDryRun { adaptive: enabled, ..sc },
            }),
            ..st
        }),
    }
}

fn set_scheduler_switch(st: &mut ControlState, which: SchedulerSwitch, enabled: bool) -> (r: Result<(), String>)
    ensures
        match switch_after_set(*old(st), which, enabled) {
            Ok(t) => *final(st) == t && r is Ok,
            Err(m) => *final(st) == *old(st) && r is Err && r->Err_0@ == m,
        },
{
    let sc = match st.scheduler {
        Some(sc) => sc,
        None => return Err(str_string("HyperAlloc scheduler dry-run is disabled")),
    };
    st.scheduler = Some(match which {
        SchedulerSwitch::MemoryAutoApply => HyperAllocSchedulerDryRun { auto_apply: enabled, ..sc },
        SchedulerSwitch::CpuAutoApply => HyperAllocSchedulerDryRun { cpu_auto_apply: enabled, ..sc },
        SchedulerSwitch::EqgateAutoDrain => HyperAllocSchedulerDryRun { eqgate_auto_drain: enabled, ..sc },
        SchedulerSwitch::Adaptive => HyperAllocSchedulerDryRun { adaptive: enabled, ..sc },
    });
    Ok(())
}

/// Sets memory auto-apply and answers under the given label.
pub fn set_hyperalloc_scheduler_memory_auto_apply_with_label(st: &mut ControlState, enabled: bool, label: &str, now: u64) -> (r: Result<String, String>)
    ensures
        applied(*old(st), *final(st), r, switch_after_set(*old(st), SchedulerSwitch::MemoryAutoApply, enabled),
            |t: ControlState| label@ + fields_text(scheduler_auto_set_fields(snapshot(t, now)))),
{
    set_scheduler_switch(st, SchedulerSwitch::MemoryAutoApply, enabled)?;
    let s = hyperalloc_runtime_snapshot(st, now);
    Ok(format_scheduler_auto_set_response(label, &s))
}

/// The `scheduler auto-set` command.
pub fn set_hyperalloc_scheduler_auto_apply(st: &mut ControlState, enabled: bool, now: u64) -> (r: Result<String, String>)
    ensures
        applied(*old(st), *final(st), r, switch_after_set(*old(st), SchedulerSwitch::MemoryAutoApply, enabled),
            |t: ControlState| "scheduler_auto_set"@ + fields_text(scheduler_auto_set_fields(snapshot(t, now)))),
{
    set_hyperalloc_scheduler_memory_auto_apply_with_label(st, enabled, "scheduler_auto_set", now)
}

/// The `scheduler memory-auto-set` command.
pub fn set_hyperalloc_scheduler_memory_auto_apply(st: &mut ControlState, enabled: bool, now: u64) -> (r: Result<String, String>)
    ensures
        applied(*old(st), *final(st), r, switch_after_set(*old(st), SchedulerSwitch::MemoryAutoApply, enabled),
            |t: ControlState| "scheduler_memory_auto_set"@ + fields_text(scheduler_auto_set_fields(snapshot(t, now)))),
{
    set_hyperalloc_scheduler_memory_auto_apply_with_label(st, enabled, "scheduler_memory_auto_set", now)
}

/// The `scheduler cpu-auto-set` command.
pub fn set_hyperalloc_scheduler_cpu_auto_apply(st: &mut ControlState, enabled: bool, now: u64) -> (r: Result<String, String>)
    ensures
        applied(*old(st), *final(st), r, switch_after_set(*old(st), SchedulerSwitch::CpuAutoApply, enabled),
            |t: ControlState| "scheduler_cpu_auto_set"@ + fields_text(scheduler_auto_set_fields(snapshot(t, now)))),
{
    set_scheduler_switch(st, SchedulerSwitch::CpuAutoApply, enabled)?;
    let s = hyperalloc_runtime_snapshot(st, now);
    Ok(format_scheduler_cpu_auto_set_response(&s))
}

/// The `scheduler eqgate-auto-set` command.
pub fn set_hyperalloc_scheduler_eqgate_auto_drain(st: &mut ControlState, enabled: bool, now: u64) -> (r: Result<String, String>)
    ensures
        applied(*old(st), *final(st), r, switch_after_set(*old(st), SchedulerSwitch::EqgateAutoDrain, enabled),
            |t: ControlState| "scheduler_eqgate_auto_set"@ + fields_text(scheduler_eqgate_auto_set_fields(snapshot(t, now)))),
{
    set_scheduler_switch(st, SchedulerSwitch::EqgateAutoDrain, enabled)?;
    let s = hyperalloc_runtime_snapshot(st, now);
    Ok(format_scheduler_eqgate_auto_set_response(&s))
}

/// The `scheduler adaptive-set` command.
pub fn set_hyperalloc_scheduler_adaptive(st: &mut ControlState, enabled: bool, now: u64) -> (r: Result<String, String>)
    ensures
        applied(*old(st), *final(st), r, switch_after_set(*old(st), SchedulerSwitch::Adaptive, enabled),
            |t: ControlState| "scheduler_adaptive_set"@ + fields_text(scheduler_adaptive_set_fields(snapshot(t, now)))),
{
    set_scheduler_switch(st, SchedulerSwitch::Adaptive, enabled)?;
    let s = hyperalloc_runtime_snapshot(st, now);
    Ok(format_scheduler_adaptive_set_response(&s))
}

/// The scheduler's settings and what its I/O goals achieve.
pub fn format_hyperalloc_scheduler_status(st: &ControlState, now: u64) -> (r: String)
    ensures
        r@ == "scheduler_status"@ + fields_text(scheduler_status_fields(snapshot(*st, now))),
{
    let s = hyperalloc_runtime_snapshot(st, now);
    format_scheduler_status_line(&s)
}

/// The policy, metrics and evaluator settings.
pub fn format_hyperalloc_policy_status(st: &ControlState, now: u64) -> (r: String)
    ensures
        r@ == "policy_status"@ + fields_text(policy_status_fields(st.instance_id, snapshot(*st, now))),
{
    let s = hyperalloc_runtime_snapshot(st, now);
    format_policy_status_line(st.instance_id, &s)
}


/// All the variables the control server reads at start.
pub struct ControlEnv {
    pub policy_target: EnvValue,
    pub policy_interval: EnvValue,
    pub metrics_interval: EnvValue,
    pub eval_interval: EnvValue,
    pub eval_target: EnvValue,
    pub scheduler: SchedulerEnv,
}

/// The control state at start: the policy, sampler, evaluator and scheduler
/// from the environment, in that order, the first failure failing the start;
/// no memory target; the block backend gets the scheduler's weight.
pub open spec fn initial_state(
    instance_id: u64,
    default_vcpus: u8,
    max_vcpus: u8,
    has_block_backend: bool,
    has_vfio_backend: bool,
    env: &ControlEnv,
    now: u64,
) -> Result<ControlState, Seq<char>> {
    match policy_from_env(env_view(&env.policy_target), env_view(&env.policy_interval), now) {
        Err(m) => Err(m),
        Ok(policy) => match metrics_from_env(env_view(&env.metrics_interval), now) {
            Err(m) => Err(m),
            Ok(metrics) => match evaluator_from_env(env_view(&env.eval_interval), env_view(&env.eval_target), now) {
                Err(m) => Err(m),
                Ok(evaluator) => match scheduler_from_env(&env.scheduler, default_vcpus, max_vcpus, now) {
                    Err(m) => Err(m),
                    Ok(scheduler) => Ok(ControlState {
                        instance_id,
                        has_block_backend,
                        has_vfio_backend,
                        max_vcpus,
                        desired_vcpus: default_vcpus,
                        memory_target_huge_frames: 0,
                        policy,
                        metrics,
                        evaluator,
                        scheduler,
                        block_backend_io_weight: match scheduler {
                            Some(sc) if has_block_backend => sc.block_io_weight,
                            _ => 0,
                        },
                    }),
                },
            },
        },
    }
}

/// The control state at start (see [`initial_state`]).
pub fn new_control_state(
    instance_id: u64,
    default_vcpus: u8,
    max_vcpus: u8,
    has_block_backend: bool,
    has_vfio_backend: bool,
    env: &ControlEnv,
    now: u64,
) -> (r: Result<ControlState, String>)
    ensures
        same_result(r, initial_state(instance_id, default_vcpus, max_vcpus, has_block_backend, has_vfio_backend, env, now)),
{
    let policy = parse_hyperalloc_policy(&env.policy_target, &env.policy_interval, now)?;
    let metrics = parse_hyperalloc_metrics_sampler(&env.metrics_interval, now)?;
    let evaluator = parse_hyperalloc_policy_evaluator(&env.eval_interval, &env.eval_target, now)?;
    let scheduler = parse_hyperalloc_scheduler(&env.scheduler, default_vcpus, max_vcpus, now)?;
    let weight = match scheduler {
        Some(sc) => if has_block_backend { sc.block_io_weight } else { 0 },
        None => 0,
    };
    Ok(ControlState {
        instance_id,
        has_block_backend,
        has_vfio_backend,
        max_vcpus,
        desired_vcpus: default_vcpus,
        memory_target_huge_frames: 0,
        policy,
        metrics,
        evaluator,
        scheduler,
        block_backend_io_weight: weight,
    })
}

/// Repeating a policy command changes nothing: the second time, the
/// target and interval are the ones already set, so the timer and the
/// sequence numbers are kept, whenever it comes. A nonzero target reads
/// back as set, with the interval defaulted and raised to the minimum.
pub proof fn lemma_policy_set_idempotent(p: Option<HyperAllocPolicy>, target: u64, interval_ms: Option<u64>, now1: u64, now2: u64)
    ensures
        policy_after_set(policy_after_set(p, target, interval_ms, now1), target, interval_ms, now2)
            == policy_after_set(p, target, interval_ms, now1),
        target != 0 ==> (policy_after_set(p, target, interval_ms, now1) matches Some(q) && q.target_huge_frames == target
            && q.interval_ms == at_least(match interval_ms { Some(i) => i, None => HYPERALLOC_POLICY_DEFAULT_INTERVAL_MS }, HYPERALLOC_POLICY_MIN_INTERVAL_MS)),
        target == 0 ==> policy_after_set(p, target, interval_ms, now1) is None,
{
}

/// Repeating a metrics command changes nothing, and a nonzero interval
/// reads back raised to the minimum.
pub proof fn lemma_metrics_set_idempotent(m: Option<HyperAllocMetricsSampler>, interval_ms: u64, now1: u64, now2: u64)
    ensures
        metrics_after_set(metrics_after_set(m, interval_ms, now1), interval_ms, now2) == metrics_after_set(m, interval_ms, now1),
        interval_ms != 0 ==> (metrics_after_set(m, interval_ms, now1) matches Some(q) && q.interval_ms == at_least(interval_ms, HYPERALLOC_METRICS_MIN_INTERVAL_MS)),
{
}

/// Repeating an evaluator command changes nothing, and its settings read
/// back as given (the target defaulted, the interval raised).
pub proof fn lemma_evaluator_set_idempotent(e: Option<HyperAllocPolicyEvaluator>, interval_ms: u64, target: Option<u64>, now1: u64, now2: u64)
    ensures
        evaluator_after_set(evaluator_after_set(e, interval_ms, target, now1), interval_ms, target, now2)
            == evaluator_after_set(e, interval_ms, target, now1),
        interval_ms != 0 ==> (evaluator_after_set(e, interval_ms, target, now1) matches Some(q) && q.interval_ms == at_least(interval_ms, HYPERALLOC_EVAL_MIN_INTERVAL_MS)
            && q.target_huge_frames == match target { Some(t) => t, None => HYPERALLOC_EVAL_DEFAULT_TARGET_HUGE_FRAMES }),
{
}

/// A scheduler switch, once set, reads back as set, leaves every other
/// setting and the rest of the state alone, and setting it again to the
/// same value changes nothing; with no scheduler it is refused.
pub proof fn lemma_switch_read_back(st: ControlState, which: SchedulerSwitch, enabled: bool)
    ensures
        st.scheduler is None ==> switch_after_set(st, which, enabled) is Err,
        st.scheduler matches Some(sc) ==> (switch_after_set(st, which, enabled) matches Ok(t) && {
            let n = t.scheduler->Some_0;
            &&& t.scheduler is Some
            &&& (ControlState { scheduler: st.scheduler, ..t }) == st
            &&& match which {
                SchedulerSwitch::MemoryAutoApply => n.auto_apply == enabled && n == (HyperAllocSchedulerDryRun { auto_apply: enabled, ..sc }),
                SchedulerSwitch::CpuAutoApply => n.cpu_auto_apply == enabled && n == (HyperAllocSchedulerDryRun { cpu_auto_apply: enabled, ..sc }),
                SchedulerSwitch::EqgateAutoDrain => n.eqgate_auto_drain == enabled && n == (HyperAllocSchedulerDryRun { eqgate_auto_drain: enabled, ..sc }),
                SchedulerSwitch::Adaptive => n.adaptive == enabled && n == (HyperAllocSchedulerDryRun { adaptive: enabled, ..sc }),
            }
            &&& switch_after_set(t, which, enabled) == Ok::<ControlState, Seq<char>>(t)
        }),
{
}

/// Repeating a scheduler command that succeeded changes nothing: the
/// second time finds the settings it would make.
pub proof fn lemma_scheduler_set_idempotent(
    st: ControlState,
    interval_ms: u64,
    target: Option<u64>,
    desired: Option<u8>,
    now1: u64,
    now2: u64,
    cap: Result<u16, Seq<char>>,
)
    requires
        scheduler_after_set(st, interval_ms, target, desired, now1, cap) is Ok,
    ensures
        scheduler_after_set(scheduler_after_set(st, interval_ms, target, desired, now1, cap)->Ok_0, interval_ms, target, desired, now2, cap)
            == scheduler_after_set(st, interval_ms, target, desired, now1, cap),
{
}

} // verus!
