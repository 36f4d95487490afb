//! The microVM control-socket command language: one line of
//! whitespace-separated words, parsed into a command or an error message.
use vstd::prelude::*;
use crate::hyperalloc::{
    HYPERALLOC_HUGE_PAGE_SIZE, VFIO_DMA_OP_MAP, VFIO_DMA_OP_UNMAP, VFIO_DMA_STATUS_NONE,
    VFIO_DMA_STATUS_PENDING, VFIO_DMA_STATUS_SUCCESS, VFIO_DMA_STATUS_FAILED,
    VFIO_DMA_STATUS_UNSUPPORTED, DEBUG_RECLAIM_FLAG_GUEST_RAM_PREZAPPED,
    EQGATE_DRAIN_FLAG_EXECUTE,
};
use crate::scheduler::{HYPERALLOC_EVAL_DEFAULT_TARGET_HUGE_FRAMES, HYPERALLOC_EQGATE_DRAIN_DEFAULT_MAX_REQUESTS};
use crate::text::{
    IntErrorKind, spec_parse_uint, parse_uint, chars_eq_str, push_str, push_char, str_chars,
    split_whitespace, words, string_from_chars, lemma_parse_uint_bounded,
};

verus! {

/// The message of a standard integer parse error.
pub open spec fn int_error_text(k: IntErrorKind) -> Seq<char> {
    match k {
        IntErrorKind::Empty => "cannot parse integer from empty string"@,
        IntErrorKind::InvalidDigit => "invalid digit found in string"@,
        IntErrorKind::PosOverflow => "number too large to fit in target type"@,
    }
}

pub fn int_error_message(k: IntErrorKind) -> (r: &'static str)
    ensures
        r@ == int_error_text(k),
{
    match k {
        IntErrorKind::Empty => "cannot parse integer from empty string",
        IntErrorKind::InvalidDigit => "invalid digit found in string",
        IntErrorKind::PosOverflow => "number too large to fit in target type",
    }
}

/// Whether an exec result carries the value or the message of a spec result.
pub open spec fn same_result<T>(r: Result<T, String>, s: Result<T, Seq<char>>) -> bool {
    match s {
        Ok(v) => r == Ok::<T, String>(v),
        Err(e) => r is Err && r->Err_0@ == e,
    }
}

/// A decimal word as an integer no larger than `max`, or `label: <parse error>`.
pub open spec fn num_word(w: Seq<char>, max: u64, label: Seq<char>) -> Result<u64, Seq<char>> {
    match spec_parse_uint(w, 10, max as nat) {
        Ok(v) => Ok(v as u64),
        Err(k) => Err(label + ": "@ + int_error_text(k)),
    }
}

fn err_with_kind(label: &str, k: IntErrorKind) -> (e: String)
    ensures
        e@ == label@ + ": "@ + int_error_text(k),
{
    let mut e = String::new();
    push_str(&mut e, label);
    push_str(&mut e, ": ");
    push_str(&mut e, int_error_message(k));
    e
}

pub(crate) fn str_string(s: &str) -> (r: String)
    ensures
        r@ == s@,
{
    let mut r = String::new();
    push_str(&mut r, s);
    r
}

pub(crate) fn num_word_exec(w: &Vec<char>, max: u64, label: &str) -> (r: Result<u64, String>)
    ensures
        same_result(r, num_word(w@, max, label@)),
        r matches Ok(v) ==> v <= max,
{
    proof {
        lemma_parse_uint_bounded(w@, 10, max as nat);
    }
    match parse_uint(w, 10, max) {
        Ok(v) => Ok(v),
        Err(k) => Err(err_with_kind(label, k)),
    }
}

/// `parse_u64_arg`: `0x`/`0X`-prefixed hexadecimal or decimal, failing with
/// `invalid <name>: <parse error>`.
pub open spec fn u64_arg(value: Seq<char>, name: Seq<char>) -> Result<u64, Seq<char>> {
    let hex = value.len() >= 2 && value[0] == '0' && (value[1] == 'x' || value[1] == 'X');
    let r = if hex {
        spec_parse_uint(value.skip(2), 16, u64::MAX as nat)
    } else {
        spec_parse_uint(value, 10, u64::MAX as nat)
    };
    match r {
        Ok(v) => Ok(v as u64),
        Err(k) => Err("invalid "@ + name + ": "@ + int_error_text(k)),
    }
}

/// `parse_u32_arg`: a `u64` argument that must also fit in `u32`.
pub open spec fn u32_arg(value: Seq<char>, name: Seq<char>) -> Result<u32, Seq<char>> {
    match u64_arg(value, name) {
        Err(e) => Err(e),
        Ok(v) => if v <= u32::MAX {
            Ok(v as u32)
        } else {
            Err("invalid "@ + name + ": "@ + value + " outside u32 range"@)
        },
    }
}

fn invalid_named(name: &str, k: IntErrorKind) -> (e: String)
    ensures
        e@ == "invalid "@ + name@ + ": "@ + int_error_text(k),
{
    let mut e = String::new();
    push_str(&mut e, "invalid ");
    push_str(&mut e, name);
    push_str(&mut e, ": ");
    push_str(&mut e, int_error_message(k));
    e
}

pub(crate) fn push_chars(s: &mut String, v: &Vec<char>)
    ensures
        final(s)@ == old(s)@ + v@,
{
    let ghost start = s@;
    let mut i: usize = 0;
    while i < v.len()
        invariant
            i <= v.len(),
            s@ == start + v@.subrange(0, i as int),
        decreases v.len() - i,
    {
        push_char(s, v[i]);
        i = i + 1;
        assert(s@ =~= start + v@.subrange(0, i as int));
    }
    assert(v@.subrange(0, v@.len() as int) =~= v@);
}

/// Parses a numeric argument of a control command.
pub fn parse_u64_arg(value: &Vec<char>, name: &str) -> (r: Result<u64, String>)
    ensures
        same_result(r, u64_arg(value@, name@)),
{
    let hex = value.len() >= 2 && value[0] == '0' && (value[1] == 'x' || value[1] == 'X');
    if hex {
        let mut digits: Vec<char> = Vec::new();
        let mut i: usize = 2;
        while i < value.len()
            invariant
                2 <= i <= value.len(),
                digits@ == value@.subrange(2, i as int),
            decreases value.len() - i,
        {
            digits.push(value[i]);
            i = i + 1;
            assert(digits@ =~= value@.subrange(2, i as int));
        }
        assert(digits@ =~= value@.skip(2));
        match parse_uint(&digits, 16, u64::MAX) {
            Ok(v) => Ok(v),
            Err(k) => Err(invalid_named(name, k)),
        }
    } else {
        match parse_uint(value, 10, u64::MAX) {
            Ok(v) => Ok(v),
            Err(k) => Err(invalid_named(name, k)),
        }
    }
}

/// Parses a numeric argument that must fit in `u32`.
pub fn parse_u32_arg(value: &Vec<char>, name: &str) -> (r: Result<u32, String>)
    ensures
        same_result(r, u32_arg(value@, name@)),
{
    let v = parse_u64_arg(value, name)?;
    if v <= u32::MAX as u64 {
        Ok(v as u32)
    } else {
        let mut e = String::new();
        push_str(&mut e, "invalid ");
        push_str(&mut e, name);
        push_str(&mut e, ": ");
        push_chars(&mut e, value);
        push_str(&mut e, " outside u32 range");
        Err(e)
    }
}

/// A VFIO DMA status by name, or as a number that fits in `u32`.
pub open spec fn dma_status_word(value: Seq<char>) -> Result<u32, Seq<char>> {
    if value == "none"@ {
        Ok(VFIO_DMA_STATUS_NONE)
    } else if value == "pending"@ {
        Ok(VFIO_DMA_STATUS_PENDING)
    } else if value == "success"@ {
        Ok(VFIO_DMA_STATUS_SUCCESS)
    } else if value == "failed"@ {
        Ok(VFIO_DMA_STATUS_FAILED)
    } else if value == "unsupported"@ {
        Ok(VFIO_DMA_STATUS_UNSUPPORTED)
    } else {
        match u64_arg(value, "VFIO DMA status"@) {
            Err(e) => Err(e),
            Ok(v) => if v <= u32::MAX {
                Ok(v as u32)
            } else {
                Err("invalid VFIO DMA status: "@ + value + " out of range"@)
            },
        }
    }
}

pub fn parse_hyperalloc_vfio_dma_status(value: &Vec<char>) -> (r: Result<u32, String>)
    ensures
        same_result(r, dma_status_word(value@)),
{
    if chars_eq_str(value, "none") {
        Ok(VFIO_DMA_STATUS_NONE)
    } else if chars_eq_str(value, "pending") {
        Ok(VFIO_DMA_STATUS_PENDING)
    } else if chars_eq_str(value, "success") {
        Ok(VFIO_DMA_STATUS_SUCCESS)
    } else if chars_eq_str(value, "failed") {
        Ok(VFIO_DMA_STATUS_FAILED)
    } else if chars_eq_str(value, "unsupported") {
        Ok(VFIO_DMA_STATUS_UNSUPPORTED)
    } else {
        let v = parse_u64_arg(value, "VFIO DMA status")?;
        if v <= u32::MAX as u64 {
            Ok(v as u32)
        } else {
            let mut e = String::new();
            push_str(&mut e, "invalid VFIO DMA status: ");
            push_chars(&mut e, value);
            push_str(&mut e, " out of range");
            Err(e)
        }
    }
}

/// A parsed control command.
#[derive(Clone, Copy, Debug)]
pub enum ControlCommand {
    ResizeVcpu { count: u8 },
    Status,
    Stop,
    HyperAllocStatus,
    PolicyStatus,
    SchedulerSnapshot,
    SchedulerStatus,
    SchedulerAutoSet { enabled: bool },
    SchedulerMemoryAutoSet { enabled: bool },
    SchedulerCpuAutoSet { enabled: bool },
    SchedulerEqgateAutoSet { enabled: bool },
    SchedulerAdaptiveSet { enabled: bool },
    SchedulerSet { interval_ms: u64, target_huge_frames: Option<u64>, desired_vcpus: Option<u8> },
    SchedulerIoSet { vfio_queue_goal: u16, block_io_weight: u16 },
    SchedulerApplyOnce,
    SchedulerApplyAllOnce,
    SchedulerCpuApplyOnce,
    PolicySet { target_huge_frames: u64, interval_ms: Option<u64> },
    MetricsSet { interval_ms: u64 },
    EvalSet { interval_ms: u64, target_huge_frames: Option<u64> },
    Eval { target_huge_frames: u64 },
    VfioDmaDebug { op: u32, frame_gpa: u64, frame_hpa: u64, iova: u64, size: u64 },
    VfioDmaComplete {
        sequence: u64,
        op: u32,
        status: u32,
        frame_gpa: u64,
        frame_hpa: u64,
        iova: u64,
        size: u64,
    },
    DebugReclaim { frame_gpa: u64, zone_id: u32, frame_len: u64, flags: u32 },
    MmapZap { gpa: u64, len: u64 },
    EqgateDebugEnqueue { frame_gpa: u64, zone_id: u32, vcpu_id: u32, frame_len: u64, entry_flags: u64 },
    EqgateDrain { max_requests: u32, flags: u32 },
    SchedulerEqgateDrainOnce { max_requests: Option<u32>, execute: bool },
    MemoryTarget { target_huge_frames: u64 },
}

/// The `i`-th word, if there is one.
pub open spec fn at(ws: Seq<Seq<char>>, i: int) -> Option<Seq<char>> {
    if 0 <= i < ws.len() {
        Some(ws[i])
    } else {
        None
    }
}

/// A `0`/`1` flag in the second word and nothing after it.
pub open spec fn flag_args(ws: Seq<Seq<char>>, missing: Seq<char>, bad: Seq<char>, extra: Seq<char>) -> Result<bool, Seq<char>> {
    match at(ws, 1) {
        None => Err(missing),
        Some(w) => if w != "0"@ && w != "1"@ {
            Err(bad)
        } else if ws.len() > 2 {
            Err(extra)
        } else {
            Ok(w == "1"@)
        },
    }
}

/// A required decimal word.
pub open spec fn req_num(ws: Seq<Seq<char>>, i: int, max: u64, missing: Seq<char>, label: Seq<char>) -> Result<u64, Seq<char>> {
    match at(ws, i) {
        None => Err(missing),
        Some(w) => num_word(w, max, label),
    }
}

/// An optional decimal word.
pub open spec fn opt_num(ws: Seq<Seq<char>>, i: int, max: u64, label: Seq<char>) -> Result<Option<u64>, Seq<char>> {
    match at(ws, i) {
        None => Ok(None),
        Some(w) => match num_word(w, max, label) {
            Ok(v) => Ok(Some(v)),
            Err(e) => Err(e),
        },
    }
}

/// An optional numeric argument with a default.
pub open spec fn opt_u64_arg(ws: Seq<Seq<char>>, i: int, name: Seq<char>, default: u64) -> Result<u64, Seq<char>> {
    match at(ws, i) {
        None => Ok(default),
        Some(w) => u64_arg(w, name),
    }
}

/// An optional `u32` argument with a default.
pub open spec fn opt_u32_arg(ws: Seq<Seq<char>>, i: int, name: Seq<char>, default: u32) -> Result<u32, Seq<char>> {
    match at(ws, i) {
        None => Ok(default),
        Some(w) => u32_arg(w, name),
    }
}

/// A required numeric argument.
pub open spec fn req_u64_arg(ws: Seq<Seq<char>>, i: int, missing: Seq<char>, name: Seq<char>) -> Result<u64, Seq<char>> {
    match at(ws, i) {
        None => Err(missing),
        Some(w) => u64_arg(w, name),
    }
}

/// `map` or `unmap`.
pub open spec fn dma_op_word(ws: Seq<Seq<char>>, i: int, missing: Seq<char>, bad: Seq<char>) -> Result<u32, Seq<char>> {
    match at(ws, i) {
        None => Err(missing),
        Some(w) => if w == "map"@ {
            Ok(VFIO_DMA_OP_MAP)
        } else if w == "unmap"@ {
            Ok(VFIO_DMA_OP_UNMAP)
        } else {
            Err(bad)
        },
    }
}

pub open spec fn is_prezapped_word(w: Seq<char>) -> bool {
    w == "--prezapped"@ || w == "prezapped"@
}

pub open spec fn is_execute_word(w: Seq<char>) -> bool {
    w == "--execute"@ || w == "execute"@
}

/// The words after the position ones that are not `execute` words.
pub open spec fn numeric_words(ws: Seq<Seq<char>>) -> Seq<Seq<char>>
    decreases ws.len(),
{
    if ws.len() == 0 {
        Seq::empty()
    } else if is_execute_word(ws.last()) {
        numeric_words(ws.drop_last())
    } else {
        numeric_words(ws.drop_last()).push(ws.last())
    }
}

/// Some word is an `execute` word.
pub open spec fn has_execute_word(ws: Seq<Seq<char>>) -> bool {
    exists|i: int| 0 <= i < ws.len() && is_execute_word(#[trigger] ws[i])
}

/// The request limit among the drain words: none given, or the first
/// numeric word, which must fit in `u32` and be the only one.
pub open spec fn drain_limit(rest: Seq<Seq<char>>, name: Seq<char>, range_prefix: Seq<char>, extra: Seq<char>) -> Result<Option<u32>, Seq<char>> {
    let nums = numeric_words(rest);
    if nums.len() == 0 {
        Ok(None)
    } else {
        match u64_arg(nums[0], name) {
            Err(e) => Err(e),
            Ok(v) => if v > u32::MAX {
                Err(range_prefix + nums[0] + " outside u32 range"@)
            } else if nums.len() >= 2 {
                Err(extra)
            } else {
                Ok(Some(v as u32))
            },
        }
    }
}

/// The command of a line's words. `scheduler_enabled` tells whether the
/// scheduler runs, which the EqGate drain-once command checks before its
/// arguments.
pub open spec fn parse_command(ws: Seq<Seq<char>>, scheduler_enabled: bool) -> Result<ControlCommand, Seq<char>> {
    if ws.len() == 0 {
        Err("empty command"@)
    } else {
        let c = ws[0];
        if c == "resize-vcpu"@ || c == "set-vcpu"@ {
            match req_num(ws, 1, 255, "missing vCPU count"@, "invalid vCPU count"@) {
                Ok(v) => Ok(ControlCommand::ResizeVcpu { count: v as u8 }),
                Err(e) => Err(e),
            }
        } else if c == "get-vcpu"@ || c == "status"@ {
            Ok(ControlCommand::Status)
        } else if c == "microvm-stop"@ || c == "stop"@ {
            if ws.len() > 1 {
                Err("unexpected argument for microvm-stop"@)
            } else {
                Ok(ControlCommand::Stop)
            }
        } else if c == "hyperalloc-status"@ || c == "ha-status"@ {
            Ok(ControlCommand::HyperAllocStatus)
        } else if c == "hyperalloc-policy-status"@ || c == "ha-policy-status"@ {
            Ok(ControlCommand::PolicyStatus)
        } else if c == "hyperalloc-scheduler-snapshot"@ || c == "ha-snapshot"@ {
            Ok(ControlCommand::SchedulerSnapshot)
        } else if c == "hyperalloc-scheduler-status"@ || c == "ha-scheduler-status"@ {
            Ok(ControlCommand::SchedulerStatus)
        } else if c == "hyperalloc-scheduler-auto-set"@ || c == "ha-scheduler-auto-set"@ {
            match flag_args(ws, "missing scheduler auto-apply flag"@,
                "scheduler auto-apply flag must be 0 or 1"@,
                "unexpected extra argument for scheduler auto-set"@) {
                Ok(b) => Ok(ControlCommand::SchedulerAutoSet { enabled: b }),
                Err(e) => Err(e),
            }
        } else if c == "hyperalloc-scheduler-memory-auto-set"@ || c == "ha-scheduler-memory-auto-set"@ {
            match flag_args(ws, "missing scheduler memory auto-apply flag"@,
                "scheduler memory auto-apply flag must be 0 or 1"@,
                "unexpected extra argument for scheduler memory auto-set"@) {
                Ok(b) => Ok(ControlCommand::SchedulerMemoryAutoSet { enabled: b }),
                Err(e) => Err(e),
            }
        } else if c == "hyperalloc-scheduler-cpu-auto-set"@ || c == "ha-scheduler-cpu-auto-set"@ {
            match flag_args(ws, "missing scheduler CPU auto-apply flag"@,
                "scheduler CPU auto-apply flag must be 0 or 1"@,
                "unexpected extra argument for scheduler CPU auto-set"@) {
                Ok(b) => Ok(ControlCommand::SchedulerCpuAutoSet { enabled: b }),
                Err(e) => Err(e),
            }
        } else if c == "hyperalloc-scheduler-eqgate-auto-set"@ || c == "ha-scheduler-eqgate-auto-set"@ {
            match flag_args(ws, "missing scheduler EqGate auto-drain flag"@,
                "scheduler EqGate auto-drain flag must be 0 or 1"@,
                "unexpected extra argument for scheduler EqGate auto-set"@) {
                Ok(b) => Ok(ControlCommand::SchedulerEqgateAutoSet { enabled: b }),
                Err(e) => Err(e),
            }
        } else if c == "hyperalloc-scheduler-adaptive-set"@ || c == "ha-scheduler-adaptive-set"@ {
            match flag_args(ws, "missing scheduler adaptive flag"@,
                "scheduler adaptive flag must be 0 or 1"@,
                "unexpected extra argument for scheduler adaptive-set"@) {
                Ok(b) => Ok(ControlCommand::SchedulerAdaptiveSet { enabled: b }),
                Err(e) => Err(e),
            }
        } else if c == "hyperalloc-scheduler-set"@ || c == "ha-scheduler-set"@ {
            match req_num(ws, 1, u64::MAX, "missing scheduler interval ms"@, "invalid scheduler interval ms"@) {
                Err(e) => Err(e),
                Ok(interval) => match opt_num(ws, 2, u64::MAX, "invalid scheduler target huge-frame count"@) {
                    Err(e) => Err(e),
                    Ok(target) => match opt_num(ws, 3, 255, "invalid scheduler desired vCPU count"@) {
                        Err(e) => Err(e),
                        Ok(desired) => if ws.len() > 4 {
                            Err("unexpected extra argument for scheduler set"@)
                        } else {
                            Ok(ControlCommand::SchedulerSet {
                                interval_ms: interval,
                                target_huge_frames: target,
                                desired_vcpus: match desired {
                                    Some(d) => Some(d as u8),
                                    None => None,
                                },
                            })
                        },
                    },
                },
            }
        } else if c == "hyperalloc-scheduler-io-set"@ || c == "ha-scheduler-io-set"@ {
            match req_num(ws, 1, 0xffff, "missing scheduler VFIO queue goal"@, "invalid scheduler VFIO queue goal"@) {
                Err(e) => Err(e),
                Ok(vfio) => match req_num(ws, 2, 0xffff, "missing scheduler block I/O weight"@, "invalid scheduler block I/O weight"@) {
                    Err(e) => Err(e),
                    Ok(block) => if ws.len() > 3 {
                        Err("unexpected extra argument for scheduler io-set"@)
                    } else {
                        Ok(ControlCommand::SchedulerIoSet {
                            vfio_queue_goal: vfio as u16,
                            block_io_weight: block as u16,
                        })
                    },
                },
            }
        } else if c == "hyperalloc-scheduler-apply-once"@ || c == "ha-scheduler-apply-once"@ {
            if ws.len() > 1 {
                Err("unexpected argument for scheduler apply-once"@)
            } else {
                Ok(ControlCommand::SchedulerApplyOnce)
            }
        } else if c == "hyperalloc-scheduler-apply-all-once"@ || c == "ha-scheduler-apply-all-once"@ {
            if ws.len() > 1 {
                Err("unexpected argument for scheduler apply-all-once"@)
            } else {
                Ok(ControlCommand::SchedulerApplyAllOnce)
            }
        } else if c == "hyperalloc-scheduler-cpu-apply-once"@ || c == "ha-scheduler-cpu-apply-once"@ {
            if ws.len() > 1 {
                Err("unexpected argument for scheduler CPU apply-once"@)
            } else {
                Ok(ControlCommand::SchedulerCpuApplyOnce)
            }
        } else if c == "hyperalloc-policy-set"@ || c == "ha-policy-set"@ {
            match req_num(ws, 1, u64::MAX, "missing policy target huge-frame count"@, "invalid policy target huge-frame count"@) {
                Err(e) => Err(e),
                Ok(target) => match opt_num(ws, 2, u64::MAX, "invalid policy interval ms"@) {
                    Err(e) => Err(e),
                    Ok(interval) => if ws.len() > 3 {
                        Err("unexpected extra argument for policy set"@)
                    } else {
                        Ok(ControlCommand::PolicySet { target_huge_frames: target, interval_ms: interval })
                    },
                },
            }
        } else if c == "hyperalloc-metrics-set"@ || c == "ha-metrics-set"@ {
            match req_num(ws, 1, u64::MAX, "missing metrics interval ms"@, "invalid metrics interval ms"@) {
                Err(e) => Err(e),
                Ok(interval) => if ws.len() > 2 {
                    Err("unexpected extra argument for metrics set"@)
                } else {
                    Ok(ControlCommand::MetricsSet { interval_ms: interval })
                },
            }
        } else if c == "hyperalloc-eval-set"@ || c == "ha-eval-set"@ {
            match req_num(ws, 1, u64::MAX, "missing policy eval interval ms"@, "invalid policy eval interval ms"@) {
                Err(e) => Err(e),
                Ok(interval) => match opt_num(ws, 2, u64::MAX, "invalid policy eval target huge-frame count"@) {
                    Err(e) => Err(e),
                    Ok(target) => if ws.len() > 3 {
                        Err("unexpected extra argument for policy eval set"@)
                    } else {
                        Ok(ControlCommand::EvalSet { interval_ms: interval, target_huge_frames: target })
                    },
                },
            }
        } else if c == "hyperalloc-eval"@ || c == "ha-eval"@ {
            match opt_num(ws, 1, u64::MAX, "invalid policy eval target huge-frame count"@) {
                Err(e) => Err(e),
                Ok(target) => Ok(ControlCommand::Eval {
                    target_huge_frames: match target {
                        Some(t) => t,
                        None => HYPERALLOC_EVAL_DEFAULT_TARGET_HUGE_FRAMES,
                    },
                }),
            }
        } else {
            parse_command_rest(ws, scheduler_enabled)
        }
    }
}

/// The second half of [`parse_command`]: the debugging and memory commands.
pub open spec fn parse_command_rest(ws: Seq<Seq<char>>, scheduler_enabled: bool) -> Result<ControlCommand, Seq<char>> {
    let c = ws[0];
    if c == "hyperalloc-vfio-dma-debug"@ || c == "ha-vfio-dma-debug"@ {
        match dma_op_word(ws, 1, "missing VFIO DMA op"@, "VFIO DMA op must be map or unmap"@) {
            Err(e) => Err(e),
            Ok(op) => match req_u64_arg(ws, 2, "missing VFIO DMA frame GPA"@, "VFIO DMA frame GPA"@) {
                Err(e) => Err(e),
                Ok(gpa) => match req_u64_arg(ws, 3, "missing VFIO DMA frame HPA"@, "VFIO DMA frame HPA"@) {
                    Err(e) => Err(e),
                    Ok(hpa) => match opt_u64_arg(ws, 4, "VFIO DMA IOVA"@, gpa) {
                        Err(e) => Err(e),
                        Ok(iova) => match opt_u64_arg(ws, 5, "VFIO DMA size"@, HYPERALLOC_HUGE_PAGE_SIZE) {
                            Err(e) => Err(e),
                            Ok(size) => if ws.len() > 6 {
                                Err("unexpected extra argument for VFIO DMA debug request"@)
                            } else {
                                Ok(ControlCommand::VfioDmaDebug { op, frame_gpa: gpa, frame_hpa: hpa, iova, size })
                            },
                        },
                    },
                },
            },
        }
    } else if c == "hyperalloc-vfio-dma-complete"@ || c == "ha-vfio-dma-complete"@ {
        match req_u64_arg(ws, 1, "missing VFIO DMA completion sequence"@, "VFIO DMA completion sequence"@) {
            Err(e) => Err(e),
            Ok(sequence) => match dma_op_word(ws, 2, "missing VFIO DMA completion op"@, "VFIO DMA completion op must be map or unmap"@) {
                Err(e) => Err(e),
                Ok(op) => match at(ws, 3) {
                    None => Err("missing VFIO DMA completion status"@),
                    Some(sw) => match dma_status_word(sw) {
                        Err(e) => Err(e),
                        Ok(status) => match req_u64_arg(ws, 4, "missing VFIO DMA completion frame GPA"@, "VFIO DMA completion frame GPA"@) {
                            Err(e) => Err(e),
                            Ok(gpa) => match req_u64_arg(ws, 5, "missing VFIO DMA completion frame HPA"@, "VFIO DMA completion frame HPA"@) {
                                Err(e) => Err(e),
                                Ok(hpa) => match opt_u64_arg(ws, 6, "VFIO DMA completion IOVA"@, gpa) {
                                    Err(e) => Err(e),
                                    Ok(iova) => match opt_u64_arg(ws, 7, "VFIO DMA completion size"@, HYPERALLOC_HUGE_PAGE_SIZE) {
                                        Err(e) => Err(e),
                                        Ok(size) => if ws.len() > 8 {
                                            Err("unexpected extra argument for VFIO DMA complete request"@)
                                        } else {
                                            Ok(ControlCommand::VfioDmaComplete { sequence, op, status, frame_gpa: gpa, frame_hpa: hpa, iova, size })
                                        },
                                    },
                                },
                            },
                        },
                    },
                },
            },
        }
    } else if c == "hyperalloc-debug-reclaim"@ || c == "ha-debug-reclaim"@ {
        match opt_u64_arg(ws, 1, "HyperAlloc debug reclaim frame GPA"@, HYPERALLOC_HUGE_PAGE_SIZE) {
            Err(e) => Err(e),
            Ok(gpa) => match opt_u32_arg(ws, 2, "HyperAlloc debug reclaim zone id"@, 0) {
                Err(e) => Err(e),
                Ok(zone) => match opt_u64_arg(ws, 3, "HyperAlloc debug reclaim frame length"@, HYPERALLOC_HUGE_PAGE_SIZE) {
                    Err(e) => Err(e),
                    Ok(len) => if forall|i: int| 4 <= i < ws.len() ==> is_prezapped_word(#[trigger] ws[i]) {
                        Ok(ControlCommand::DebugReclaim {
                            frame_gpa: gpa,
                            zone_id: zone,
                            frame_len: len,
                            flags: if ws.len() > 4 {
                                DEBUG_RECLAIM_FLAG_GUEST_RAM_PREZAPPED
                            } else {
                                0
                            },
                        })
                    } else {
                        Err("unexpected extra argument for HyperAlloc debug reclaim"@)
                    },
                },
            },
        }
    } else if c == "microvm-guest-ram-mmap-zap"@ || c == "ha-vma-zap"@ {
        match opt_u64_arg(ws, 1, "MicroVM guest RAM mmap zap GPA"@, HYPERALLOC_HUGE_PAGE_SIZE) {
            Err(e) => Err(e),
            Ok(gpa) => match opt_u64_arg(ws, 2, "MicroVM guest RAM mmap zap length"@, HYPERALLOC_HUGE_PAGE_SIZE) {
                Err(e) => Err(e),
                Ok(len) => if len == 0 {
                    Err("MicroVM guest RAM mmap zap length must be nonzero"@)
                } else if ws.len() > 3 {
                    Err("unexpected extra argument for MicroVM guest RAM mmap zap"@)
                } else {
                    Ok(ControlCommand::MmapZap { gpa, len })
                },
            },
        }
    } else if c == "hyperalloc-eqgate-enqueue-debug"@ || c == "ha-eqgate-enqueue-debug"@ {
        match opt_u64_arg(ws, 1, "EqGate debug enqueue frame GPA"@, HYPERALLOC_HUGE_PAGE_SIZE) {
            Err(e) => Err(e),
            Ok(gpa) => match opt_u32_arg(ws, 2, "EqGate debug enqueue zone id"@, 0) {
                Err(e) => Err(e),
                Ok(zone) => match opt_u32_arg(ws, 3, "EqGate debug enqueue vCPU id"@, 0) {
                    Err(e) => Err(e),
                    Ok(vcpu) => match opt_u64_arg(ws, 4, "EqGate debug enqueue frame length"@, HYPERALLOC_HUGE_PAGE_SIZE) {
                        Err(e) => Err(e),
                        Ok(len) => match opt_u64_arg(ws, 5, "EqGate debug enqueue entry flags"@, 0) {
                            Err(e) => Err(e),
                            Ok(entry_flags) => if ws.len() > 6 {
                                Err("unexpected extra argument for EqGate debug enqueue"@)
                            } else {
                                Ok(ControlCommand::EqgateDebugEnqueue { frame_gpa: gpa, zone_id: zone, vcpu_id: vcpu, frame_len: len, entry_flags })
                            },
                        },
                    },
                },
            },
        }
    } else if c == "hyperalloc-eqgate-drain"@ || c == "ha-eqgate-drain"@ {
        let rest = ws.skip(1);
        match drain_limit(rest, "EqGate drain max_requests"@, "invalid EqGate drain max_requests: "@,
            "unexpected extra argument for EqGate drain"@) {
            Err(e) => Err(e),
            Ok(limit) => {
                let max = match limit {
                    Some(m) => m,
                    None => HYPERALLOC_EQGATE_DRAIN_DEFAULT_MAX_REQUESTS,
                };
                if max == 0 {
                    Err("EqGate drain max_requests must be nonzero"@)
                } else {
                    Ok(ControlCommand::EqgateDrain {
                        max_requests: max,
                        flags: if has_execute_word(rest) {
                            EQGATE_DRAIN_FLAG_EXECUTE
                        } else {
                            0
                        },
                    })
                }
            },
        }
    } else if c == "hyperalloc-scheduler-eqgate-drain-once"@ || c == "ha-scheduler-eqgate-drain-once"@ {
        if !scheduler_enabled {
            Err("HyperAlloc scheduler dry-run is disabled"@)
        } else {
            let rest = ws.skip(1);
            match drain_limit(rest, "scheduler EqGate drain max_requests"@,
                "invalid scheduler EqGate drain max_requests: "@,
                "unexpected extra argument for scheduler EqGate drain once"@) {
                Err(e) => Err(e),
                Ok(limit) => Ok(ControlCommand::SchedulerEqgateDrainOnce {
                    max_requests: limit,
                    execute: has_execute_word(rest),
                }),
            }
        }
    } else if c == "memory-target"@ || c == "set-memory-target"@ {
        match req_num(ws, 1, u64::MAX, "missing memory target huge-frame count"@, "invalid memory target huge-frame count"@) {
            Err(e) => Err(e),
            Ok(t) => if t == 0 {
                Err("memory target huge-frame count must be nonzero"@)
            } else {
                Ok(ControlCommand::MemoryTarget { target_huge_frames: t })
            },
        }
    } else {
        Err("unknown command '"@ + c + "'"@)
    }
}

/// The words of a split line, each by its characters.
pub open spec fn word_views(ws: Seq<Vec<char>>) -> Seq<Seq<char>> {
    ws.map_values(|w: Vec<char>| w@)
}

fn flag_args_exec(ws: &Vec<Vec<char>>, missing: &str, bad: &str, extra: &str) -> (r: Result<bool, String>)
    ensures
        same_result(r, flag_args(word_views(ws@), missing@, bad@, extra@)),
{
    if ws.len() < 2 {
        return Err(str_string(missing));
    }
    let zero = chars_eq_str(&ws[1], "0");
    let one = chars_eq_str(&ws[1], "1");
    if !zero && !one {
        Err(str_string(bad))
    } else if ws.len() > 2 {
        Err(str_string(extra))
    } else {
        Ok(one)
    }
}

fn req_num_exec(ws: &Vec<Vec<char>>, i: usize, max: u64, missing: &str, label: &str) -> (r: Result<u64, String>)
    ensures
        same_result(r, req_num(word_views(ws@), i as int, max, missing@, label@)),
        r matches Ok(v) ==> v <= max,
{
    if i < ws.len() {
        num_word_exec(&ws[i], max, label)
    } else {
        Err(str_string(missing))
    }
}

fn opt_num_exec(ws: &Vec<Vec<char>>, i: usize, max: u64, label: &str) -> (r: Result<Option<u64>, String>)
    ensures
        same_result(r, opt_num(word_views(ws@), i as int, max, label@)),
        r matches Ok(Some(v)) ==> v <= max,
{
    if i < ws.len() {
        match num_word_exec(&ws[i], max, label) {
            Ok(v) => Ok(Some(v)),
            Err(e) => Err(e),
        }
    } else {
        Ok(None)
    }
}

fn opt_u64_exec(ws: &Vec<Vec<char>>, i: usize, name: &str, default: u64) -> (r: Result<u64, String>)
    ensures
        same_result(r, opt_u64_arg(word_views(ws@), i as int, name@, default)),
{
    if i < ws.len() {
        parse_u64_arg(&ws[i], name)
    } else {
        Ok(default)
    }
}

fn opt_u32_exec(ws: &Vec<Vec<char>>, i: usize, name: &str, default: u32) -> (r: Result<u32, String>)
    ensures
        same_result(r, opt_u32_arg(word_views(ws@), i as int, name@, default)),
{
    if i < ws.len() {
        parse_u32_arg(&ws[i], name)
    } else {
        Ok(default)
    }
}

fn req_u64_exec(ws: &Vec<Vec<char>>, i: usize, missing: &str, name: &str) -> (r: Result<u64, String>)
    ensures
        same_result(r, req_u64_arg(word_views(ws@), i as int, missing@, name@)),
{
    if i < ws.len() {
        parse_u64_arg(&ws[i], name)
    } else {
        Err(str_string(missing))
    }
}

fn dma_op_exec(ws: &Vec<Vec<char>>, i: usize, missing: &str, bad: &str) -> (r: Result<u32, String>)
    ensures
        same_result(r, dma_op_word(word_views(ws@), i as int, missing@, bad@)),
{
    if i >= ws.len() {
        Err(str_string(missing))
    } else if chars_eq_str(&ws[i], "map") {
        Ok(VFIO_DMA_OP_MAP)
    } else if chars_eq_str(&ws[i], "unmap") {
        Ok(VFIO_DMA_OP_UNMAP)
    } else {
        Err(str_string(bad))
    }
}

fn is_prezapped_exec(w: &Vec<char>) -> (r: bool)
    ensures
        r == is_prezapped_word(w@),
{
    chars_eq_str(w, "--prezapped") || chars_eq_str(w, "prezapped")
}

fn is_execute_exec(w: &Vec<char>) -> (r: bool)
    ensures
        r == is_execute_word(w@),
{
    chars_eq_str(w, "--execute") || chars_eq_str(w, "execute")
}

fn all_prezapped_from(ws: &Vec<Vec<char>>, start: usize) -> (r: bool)
    ensures
        r == (forall|i: int| start <= i < ws@.len() ==> is_prezapped_word(#[trigger] word_views(ws@)[i])),
{
    let ghost wv = word_views(ws@);
    let mut i: usize = start;
    while i < ws.len()
        invariant
            wv == word_views(ws@),
            start <= i,
            forall|k: int| start <= k < i ==> is_prezapped_word(#[trigger] wv[k]),
        decreases ws.len() - i,
    {
        if !is_prezapped_exec(&ws[i]) {
            assert(!is_prezapped_word(wv[i as int]));
            return false;
        }
        i = i + 1;
    }
    true
}

proof fn lemma_numeric_words_push(s: Seq<Seq<char>>, x: Seq<char>)
    ensures
        numeric_words(s.push(x)) == (if is_execute_word(x) {
            numeric_words(s)
        } else {
            numeric_words(s).push(x)
        }),
        has_execute_word(s.push(x)) == (has_execute_word(s) || is_execute_word(x)),
{
    assert(s.push(x).drop_last() =~= s);
    assert(s.push(x).last() == x);
    if has_execute_word(s) {
        let i = choose|i: int| 0 <= i < s.len() && is_execute_word(#[trigger] s[i]);
        assert(s.push(x)[i] == s[i]);
    }
    if is_execute_word(x) {
        assert(s.push(x)[s.len() as int] == x);
    }
    if has_execute_word(s.push(x)) {
        let i = choose|i: int| 0 <= i < s.push(x).len() && is_execute_word(#[trigger] s.push(x)[i]);
        if i < s.len() {
            assert(s[i] == s.push(x)[i]);
        }
    }
}

fn drain_limit_exec(ws: &Vec<Vec<char>>, name: &str, range_prefix: &str, extra: &str) -> (r: (Result<Option<u32>, String>, bool))
    requires
        ws@.len() >= 1,
    ensures
        same_result(r.0, drain_limit(word_views(ws@).skip(1), name@, range_prefix@, extra@)),
        r.1 == has_execute_word(word_views(ws@).skip(1)),
{
    let ghost wv = word_views(ws@);
    let mut count: usize = 0;
    let mut first: usize = 0;
    let mut seen = false;
    let mut i: usize = 1;
    assert(wv.subrange(1, 1) =~= Seq::<Seq<char>>::empty());
    while i < ws.len()
        invariant
            wv == word_views(ws@),
            1 <= i <= ws@.len(),
            count == numeric_words(wv.subrange(1, i as int)).len(),
            count <= i,
            count > 0 ==> first < ws@.len() && numeric_words(wv.subrange(1, i as int))[0] == wv[first as int],
            seen == has_execute_word(wv.subrange(1, i as int)),
        decreases ws.len() - i,
    {
        proof {
            assert(wv.subrange(1, i as int + 1) =~= wv.subrange(1, i as int).push(wv[i as int]));
            lemma_numeric_words_push(wv.subrange(1, i as int), wv[i as int]);
        }
        if is_execute_exec(&ws[i]) {
            seen = true;
        } else {
            if count == 0 {
                first = i;
            }
            count = count + 1;
        }
        i = i + 1;
    }
    assert(wv.subrange(1, ws@.len() as int) =~= wv.skip(1));
    if count == 0 {
        return (Ok(None), seen);
    }
    let v = match parse_u64_arg(&ws[first], name) {
        Ok(v) => v,
        Err(e) => {
            return (Err(e), seen);
        },
    };
    if v > u32::MAX as u64 {
        let mut e = String::new();
        push_str(&mut e, range_prefix);
        push_chars(&mut e, &ws[first]);
        push_str(&mut e, " outside u32 range");
        (Err(e), seen)
    } else if count >= 2 {
        (Err(str_string(extra)), seen)
    } else {
        (Ok(Some(v as u32)), seen)
    }
}

fn is_cmd(c: &Vec<char>, long: &str, short: &str) -> (r: bool)
    ensures
        r == (c@ == long@ || c@ == short@),
{
    chars_eq_str(c, long) || chars_eq_str(c, short)
}

fn no_extra(ws: &Vec<Vec<char>>, n: usize, extra: &str, cmd: ControlCommand) -> (r: Result<ControlCommand, String>)
    ensures
        same_result(r, if ws@.len() > n { Err(extra@) } else { Ok(cmd) }),
{
    if ws.len() > n {
        Err(str_string(extra))
    } else {
        Ok(cmd)
    }
}

/// Parses the words of a control request (see [`parse_command`]).
pub fn parse_control_words(ws: &Vec<Vec<char>>, scheduler_enabled: bool) -> (r: Result<ControlCommand, String>)
    ensures
        same_result(r, parse_command(word_views(ws@), scheduler_enabled)),
{
    let ghost wv = word_views(ws@);
    if ws.len() == 0 {
        return Err(str_string("empty command"));
    }
    let c = &ws[0];
    assert(wv[0] == c@);
    if is_cmd(c, "resize-vcpu", "set-vcpu") {
        match req_num_exec(ws, 1, 255, "missing vCPU count", "invalid vCPU count") {
            Ok(v) => Ok(ControlCommand::ResizeVcpu { count: v as u8 }),
            Err(e) => Err(e),
        }
    } else if is_cmd(c, "get-vcpu", "status") {
        Ok(ControlCommand::Status)
    } else if is_cmd(c, "microvm-stop", "stop") {
        no_extra(ws, 1, "unexpected argument for microvm-stop", ControlCommand::Stop)
    } else if is_cmd(c, "hyperalloc-status", "ha-status") {
        Ok(ControlCommand::HyperAllocStatus)
    } else if is_cmd(c, "hyperalloc-policy-status", "ha-policy-status") {
        Ok(ControlCommand::PolicyStatus)
    } else if is_cmd(c, "hyperalloc-scheduler-snapshot", "ha-snapshot") {
        Ok(ControlCommand::SchedulerSnapshot)
    } else if is_cmd(c, "hyperalloc-scheduler-status", "ha-scheduler-status") {
        Ok(ControlCommand::SchedulerStatus)
    } else if is_cmd(c, "hyperalloc-scheduler-auto-set", "ha-scheduler-auto-set") {
        match flag_args_exec(ws, "missing scheduler auto-apply flag",
            "scheduler auto-apply flag must be 0 or 1",
            "unexpected extra argument for scheduler auto-set") {
            Ok(b) => Ok(ControlCommand::SchedulerAutoSet { enabled: b }),
            Err(e) => Err(e),
        }
    } else if is_cmd(c, "hyperalloc-scheduler-memory-auto-set", "ha-scheduler-memory-auto-set") {
        match flag_args_exec(ws, "missing scheduler memory auto-apply flag",
            "scheduler memory auto-apply flag must be 0 or 1",
            "unexpected extra argument for scheduler memory auto-set") {
            Ok(b) => Ok(ControlCommand::SchedulerMemoryAutoSet { enabled: b }),
            Err(e) => Err(e),
        }
    } else if is_cmd(c, "hyperalloc-scheduler-cpu-auto-set", "ha-scheduler-cpu-auto-set") {
        match flag_args_exec(ws, "missing scheduler CPU auto-apply flag",
            "scheduler CPU auto-apply flag must be 0 or 1",
            "unexpected extra argument for scheduler CPU auto-set") {
            Ok(b) => Ok(ControlCommand::SchedulerCpuAutoSet { enabled: b }),
            Err(e) => Err(e),
        }
    } else if is_cmd(c, "hyperalloc-scheduler-eqgate-auto-set", "ha-scheduler-eqgate-auto-set") {
        match flag_args_exec(ws, "missing scheduler EqGate auto-drain flag",
            "scheduler EqGate auto-drain flag must be 0 or 1",
            "unexpected extra argument for scheduler EqGate auto-set") {
            Ok(b) => Ok(ControlCommand::SchedulerEqgateAutoSet { enabled: b }),
            Err(e) => Err(e),
        }
    } else if is_cmd(c, "hyperalloc-scheduler-adaptive-set", "ha-scheduler-adaptive-set") {
        match flag_args_exec(ws, "missing scheduler adaptive flag",
            "scheduler adaptive flag must be 0 or 1",
            "unexpected extra argument for scheduler adaptive-set") {
            Ok(b) => Ok(ControlCommand::SchedulerAdaptiveSet { enabled: b }),
            Err(e) => Err(e),
        }
    } else if is_cmd(c, "hyperalloc-scheduler-set", "ha-scheduler-set") {
        let interval = match req_num_exec(ws, 1, u64::MAX, "missing scheduler interval ms", "invalid scheduler interval ms") {
            Ok(v) => v,
            Err(e) => return Err(e),
        };
        let target = match opt_num_exec(ws, 2, u64::MAX, "invalid scheduler target huge-frame count") {
            Ok(v) => v,
            Err(e) => return Err(e),
        };
        let desired = match opt_num_exec(ws, 3, 255, "invalid scheduler desired vCPU count") {
            Ok(v) => v,
            Err(e) => return Err(e),
        };
        let desired_vcpus = match desired {
            Some(d) => Some(d as u8),
            None => None,
        };
        no_extra(ws, 4, "unexpected extra argument for scheduler set", ControlCommand::SchedulerSet {
            interval_ms: interval,
            target_huge_frames: target,
            desired_vcpus,
        })
    } else if is_cmd(c, "hyperalloc-scheduler-io-set", "ha-scheduler-io-set") {
        let vfio = match req_num_exec(ws, 1, 0xffff, "missing scheduler VFIO queue goal", "invalid scheduler VFIO queue goal") {
            Ok(v) => v,
            Err(e) => return Err(e),
        };
        let block = match req_num_exec(ws, 2, 0xffff, "missing scheduler block I/O weight", "invalid scheduler block I/O weight") {
            Ok(v) => v,
            Err(e) => return Err(e),
        };
        no_extra(ws, 3, "unexpected extra argument for scheduler io-set", ControlCommand::SchedulerIoSet {
            vfio_queue_goal: vfio as u16,
            block_io_weight: block as u16,
        })
    } else if is_cmd(c, "hyperalloc-scheduler-apply-once", "ha-scheduler-apply-once") {
        no_extra(ws, 1, "unexpected argument for scheduler apply-once", ControlCommand::SchedulerApplyOnce)
    } else if is_cmd(c, "hyperalloc-scheduler-apply-all-once", "ha-scheduler-apply-all-once") {
        no_extra(ws, 1, "unexpected argument for scheduler apply-all-once", ControlCommand::SchedulerApplyAllOnce)
    } else if is_cmd(c, "hyperalloc-scheduler-cpu-apply-once", "ha-scheduler-cpu-apply-once") {
        no_extra(ws, 1, "unexpected argument for scheduler CPU apply-once", ControlCommand::SchedulerCpuApplyOnce)
    } else if is_cmd(c, "hyperalloc-policy-set", "ha-policy-set") {
        let target = match req_num_exec(ws, 1, u64::MAX, "missing policy target huge-frame count", "invalid policy target huge-frame count") {
            Ok(v) => v,
            Err(e) => return Err(e),
        };
        let interval = match opt_num_exec(ws, 2, u64::MAX, "invalid policy interval ms") {
            Ok(v) => v,
            Err(e) => return Err(e),
        };
        no_extra(ws, 3, "unexpected extra argument for policy set", ControlCommand::PolicySet {
            target_huge_frames: target,
            interval_ms: interval,
        })
    } else if is_cmd(c, "hyperalloc-metrics-set", "ha-metrics-set") {
        let interval = match req_num_exec(ws, 1, u64::MAX, "missing metrics interval ms", "invalid metrics interval ms") {
            Ok(v) => v,
            Err(e) => return Err(e),
        };
        no_extra(ws, 2, "unexpected extra argument for metrics set", ControlCommand::MetricsSet { interval_ms: interval })
    } else if is_cmd(c, "hyperalloc-eval-set", "ha-eval-set") {
        let interval = match req_num_exec(ws, 1, u64::MAX, "missing policy eval interval ms", "invalid policy eval interval ms") {
            Ok(v) => v,
            Err(e) => return Err(e),
        };
        let target = match opt_num_exec(ws, 2, u64::MAX, "invalid policy eval target huge-frame count") {
            Ok(v) => v,
            Err(e) => return Err(e),
        };
        no_extra(ws, 3, "unexpected extra argument for policy eval set", ControlCommand::EvalSet {
            interval_ms: interval,
            target_huge_frames: target,
        })
    } else if is_cmd(c, "hyperalloc-eval", "ha-eval") {
        match opt_num_exec(ws, 1, u64::MAX, "invalid policy eval target huge-frame count") {
            Ok(t) => Ok(ControlCommand::Eval {
                target_huge_frames: match t {
                    Some(t) => t,
                    None => HYPERALLOC_EVAL_DEFAULT_TARGET_HUGE_FRAMES,
                },
            }),
            Err(e) => Err(e),
        }
    } else {
        parse_control_words_rest(ws, scheduler_enabled)
    }
}

fn parse_control_words_rest(ws: &Vec<Vec<char>>, scheduler_enabled: bool) -> (r: Result<ControlCommand, String>)
    requires
        ws@.len() > 0,
    ensures
        same_result(r, parse_command_rest(word_views(ws@), scheduler_enabled)),
{
    let ghost wv = word_views(ws@);
    let c = &ws[0];
    assert(wv[0] == c@);
    if is_cmd(c, "hyperalloc-vfio-dma-debug", "ha-vfio-dma-debug") {
        let op = match dma_op_exec(ws, 1, "missing VFIO DMA op", "VFIO DMA op must be map or unmap") {
            Ok(v) => v,
            Err(e) => return Err(e),
        };
        let gpa = match req_u64_exec(ws, 2, "missing VFIO DMA frame GPA", "VFIO DMA frame GPA") {
            Ok(v) => v,
            Err(e) => return Err(e),
        };
        let hpa = match req_u64_exec(ws, 3, "missing VFIO DMA frame HPA", "VFIO DMA frame HPA") {
            Ok(v) => v,
            Err(e) => return Err(e),
        };
        let iova = match opt_u64_exec(ws, 4, "VFIO DMA IOVA", gpa) {
            Ok(v) => v,
            Err(e) => return Err(e),
        };
        let size = match opt_u64_exec(ws, 5, "VFIO DMA size", HYPERALLOC_HUGE_PAGE_SIZE) {
            Ok(v) => v,
            Err(e) => return Err(e),
        };
        no_extra(ws, 6, "unexpected extra argument for VFIO DMA debug request", ControlCommand::VfioDmaDebug {
            op,
            frame_gpa: gpa,
            frame_hpa: hpa,
            iova,
            size,
        })
    } else if is_cmd(c, "hyperalloc-vfio-dma-complete", "ha-vfio-dma-complete") {
        let sequence = match req_u64_exec(ws, 1, "missing VFIO DMA completion sequence", "VFIO DMA completion sequence") {
            Ok(v) => v,
            Err(e) => return Err(e),
        };
        let op = match dma_op_exec(ws, 2, "missing VFIO DMA completion op", "VFIO DMA completion op must be map or unmap") {
            Ok(v) => v,
            Err(e) => return Err(e),
        };
        if ws.len() <= 3 {
            return Err(str_string("missing VFIO DMA completion status"));
        }
        let status = match parse_hyperalloc_vfio_dma_status(&ws[3]) {
            Ok(v) => v,
            Err(e) => return Err(e),
        };
        let gpa = match req_u64_exec(ws, 4, "missing VFIO DMA completion frame GPA", "VFIO DMA completion frame GPA") {
            Ok(v) => v,
            Err(e) => return Err(e),
        };
        let hpa = match req_u64_exec(ws, 5, "missing VFIO DMA completion frame HPA", "VFIO DMA completion frame HPA") {
            Ok(v) => v,
            Err(e) => return Err(e),
        };
        let iova = match opt_u64_exec(ws, 6, "VFIO DMA completion IOVA", gpa) {
            Ok(v) => v,
            Err(e) => return Err(e),
        };
        let size = match opt_u64_exec(ws, 7, "VFIO DMA completion size", HYPERALLOC_HUGE_PAGE_SIZE) {
            Ok(v) => v,
            Err(e) => return Err(e),
        };
        no_extra(ws, 8, "unexpected extra argument for VFIO DMA complete request", ControlCommand::VfioDmaComplete {
            sequence,
            op,
            status,
            frame_gpa: gpa,
            frame_hpa: hpa,
            iova,
            size,
        })
    } else if is_cmd(c, "hyperalloc-debug-reclaim", "ha-debug-reclaim") {
        let gpa = match opt_u64_exec(ws, 1, "HyperAlloc debug reclaim frame GPA", HYPERALLOC_HUGE_PAGE_SIZE) {
            Ok(v) => v,
            Err(e) => return Err(e),
        };
        let zone = match opt_u32_exec(ws, 2, "HyperAlloc debug reclaim zone id", 0) {
            Ok(v) => v,
            Err(e) => return Err(e),
        };
        let len = match opt_u64_exec(ws, 3, "HyperAlloc debug reclaim frame length", HYPERALLOC_HUGE_PAGE_SIZE) {
            Ok(v) => v,
            Err(e) => return Err(e),
        };
        if all_prezapped_from(ws, 4) {
            Ok(ControlCommand::DebugReclaim {
                frame_gpa: gpa,
                zone_id: zone,
                frame_len: len,
                flags: if ws.len() > 4 {
                    DEBUG_RECLAIM_FLAG_GUEST_RAM_PREZAPPED
                } else {
                    0
                },
            })
        } else {
            Err(str_string("unexpected extra argument for HyperAlloc debug reclaim"))
        }
    } else if is_cmd(c, "microvm-guest-ram-mmap-zap", "ha-vma-zap") {
        let gpa = match opt_u64_exec(ws, 1, "MicroVM guest RAM mmap zap GPA", HYPERALLOC_HUGE_PAGE_SIZE) {
            Ok(v) => v,
            Err(e) => return Err(e),
        };
        let len = match opt_u64_exec(ws, 2, "MicroVM guest RAM mmap zap length", HYPERALLOC_HUGE_PAGE_SIZE) {
            Ok(v) => v,
            Err(e) => return Err(e),
        };
        if len == 0 {
            Err(str_string("MicroVM guest RAM mmap zap length must be nonzero"))
        } else {
            no_extra(ws, 3, "unexpected extra argument for MicroVM guest RAM mmap zap", ControlCommand::MmapZap { gpa, len })
        }
    } else if is_cmd(c, "hyperalloc-eqgate-enqueue-debug", "ha-eqgate-enqueue-debug") {
        let gpa = match opt_u64_exec(ws, 1, "EqGate debug enqueue frame GPA", HYPERALLOC_HUGE_PAGE_SIZE) {
            Ok(v) => v,
            Err(e) => return Err(e),
        };
        let zone = match opt_u32_exec(ws, 2, "EqGate debug enqueue zone id", 0) {
            Ok(v) => v,
            Err(e) => return Err(e),
        };
        let vcpu = match opt_u32_exec(ws, 3, "EqGate debug enqueue vCPU id", 0) {
            Ok(v) => v,
            Err(e) => return Err(e),
        };
        let len = match opt_u64_exec(ws, 4, "EqGate debug enqueue frame length", HYPERALLOC_HUGE_PAGE_SIZE) {
            Ok(v) => v,
            Err(e) => return Err(e),
        };
        let entry_flags = match opt_u64_exec(ws, 5, "EqGate debug enqueue entry flags", 0) {
            Ok(v) => v,
            Err(e) => return Err(e),
        };
        no_extra(ws, 6, "unexpected extra argument for EqGate debug enqueue", ControlCommand::EqgateDebugEnqueue {
            frame_gpa: gpa,
            zone_id: zone,
            vcpu_id: vcpu,
            frame_len: len,
            entry_flags,
        })
    } else if is_cmd(c, "hyperalloc-eqgate-drain", "ha-eqgate-drain") {
        let (limit, execute) = drain_limit_exec(ws, "EqGate drain max_requests",
            "invalid EqGate drain max_requests: ", "unexpected extra argument for EqGate drain");
        let limit = match limit {
            Ok(v) => v,
            Err(e) => return Err(e),
        };
        let max = match limit {
            Some(m) => m,
            None => HYPERALLOC_EQGATE_DRAIN_DEFAULT_MAX_REQUESTS,
        };
        if max == 0 {
            Err(str_string("EqGate drain max_requests must be nonzero"))
        } else {
            Ok(ControlCommand::EqgateDrain {
                max_requests: max,
                flags: if execute {
                    EQGATE_DRAIN_FLAG_EXECUTE
                } else {
                    0
                },
            })
        }
    } else if is_cmd(c, "hyperalloc-scheduler-eqgate-drain-once", "ha-scheduler-eqgate-drain-once") {
        if !scheduler_enabled {
            return Err(str_string("HyperAlloc scheduler dry-run is disabled"));
        }
        let (limit, execute) = drain_limit_exec(ws, "scheduler EqGate drain max_requests",
            "invalid scheduler EqGate drain max_requests: ",
            "unexpected extra argument for scheduler EqGate drain once");
        match limit {
            Ok(l) => Ok(ControlCommand::SchedulerEqgateDrainOnce { max_requests: l, execute }),
            Err(e) => Err(e),
        }
    } else if is_cmd(c, "memory-target", "set-memory-target") {
        let t = match req_num_exec(ws, 1, u64::MAX, "missing memory target huge-frame count", "invalid memory target huge-frame count") {
            Ok(v) => v,
            Err(e) => return Err(e),
        };
        if t == 0 {
            Err(str_string("memory target huge-frame count must be nonzero"))
        } else {
            Ok(ControlCommand::MemoryTarget { target_huge_frames: t })
        }
    } else {
        let mut e = String::new();
        push_str(&mut e, "unknown command '");
        push_chars(&mut e, c);
        push_str(&mut e, "'");
        Err(e)
    }
}

/// Parses one control request line into a command, or the message that
/// answers a malformed request.
pub fn parse_control_command(request: &str, scheduler_enabled: bool) -> (r: Result<ControlCommand, String>)
    ensures
        same_result(r, parse_command(words(request@), scheduler_enabled)),
{
    let chars = str_chars(request);
    let ws = split_whitespace(&chars);
    assert(word_views(ws@) =~= words(request@));
    parse_control_words(&ws, scheduler_enabled)
}

} // verus!
