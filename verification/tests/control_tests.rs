use axcli::command::{parse_control_command, ControlCommand};
use axcli::control::{
    format_hyperalloc_policy_status, set_hyperalloc_metrics, set_hyperalloc_policy,
    set_hyperalloc_scheduler_adaptive, validate_scheduler_desired_vcpus, validate_scheduler_io_goals,
};
use axcli::control_step::{execute_command, resume_command, ControlStep, InstanceCall, InstanceReply, Pending};
use axcli::scheduler::{ControlState, MemoryTargetReply};

fn state() -> ControlState {
    ControlState {
        instance_id: 7,
        has_block_backend: false,
        has_vfio_backend: false,
        max_vcpus: 4,
        desired_vcpus: 2,
        memory_target_huge_frames: 0,
        policy: None,
        metrics: None,
        evaluator: None,
        scheduler: None,
        block_backend_io_weight: 0,
    }
}

fn done(step: ControlStep) -> Result<String, String> {
    match step {
        ControlStep::Done(r) => r,
        ControlStep::Call(..) => panic!("expected an answer"),
    }
}

#[test]
fn parses_commands_and_aliases() {
    assert!(matches!(parse_control_command("status", false), Ok(ControlCommand::Status)));
    assert!(matches!(parse_control_command("  get-vcpu  ", false), Ok(ControlCommand::Status)));
    assert!(matches!(parse_control_command("set-vcpu 3", false), Ok(ControlCommand::ResizeVcpu { count: 3 })));
    assert!(matches!(
        parse_control_command("ha-policy-set 8 500", false),
        Ok(ControlCommand::PolicySet { target_huge_frames: 8, interval_ms: Some(500) })
    ));
    assert_eq!(parse_control_command("", false).err(), Some("empty command".to_string()));
    assert_eq!(parse_control_command("frobnicate", false).err(), Some("unknown command 'frobnicate'".to_string()));
    assert_eq!(parse_control_command("set-vcpu", false).err(), Some("missing vCPU count".to_string()));
    assert_eq!(
        parse_control_command("set-vcpu x", false).err(),
        Some("invalid vCPU count: invalid digit found in string".to_string())
    );
    assert_eq!(
        parse_control_command("memory-target 0", false).err(),
        Some("memory target huge-frame count must be nonzero".to_string())
    );
    assert_eq!(
        parse_control_command("ha-scheduler-auto-set 2", true).err(),
        Some("scheduler auto-apply flag must be 0 or 1".to_string())
    );
    assert_eq!(
        parse_control_command("stop now", false).err(),
        Some("unexpected argument for microvm-stop".to_string())
    );
}

#[test]
fn status_and_resize_round_trip() {
    let mut st = state();
    let r = done(execute_command(&mut st, "status", 0, &Ok(1)));
    assert_eq!(r, Ok("desired_vcpus=2 max_vcpus=4 memory_target_huge_frames=0".to_string()));
    assert_eq!(
        done(execute_command(&mut st, "set-vcpu 9", 0, &Ok(1))),
        Err("vCPU count 9 outside allowed range 1..=4".to_string())
    );
    match execute_command(&mut st, "set-vcpu 3", 0, &Ok(1)) {
        ControlStep::Call(InstanceCall::SetVcpuCount { count: 3 }, p) => {
            let r = done(resume_command(&mut st, p, Ok(InstanceReply::VcpuCountSet), 0));
            assert_eq!(r, Ok("desired_vcpus=3 max_vcpus=4".to_string()));
        },
        _ => panic!("expected a vCPU call"),
    }
    assert_eq!(st.desired_vcpus, 3);
}

#[test]
fn failed_call_reports_its_error_and_keeps_state() {
    let mut st = state();
    let before = st.desired_vcpus;
    let r = done(resume_command(&mut st, Pending::Resize { count: 1 }, Err("ioctl failed".to_string()), 0));
    assert_eq!(r, Err("ioctl failed".to_string()));
    assert_eq!(st.desired_vcpus, before);
}

#[test]
fn memory_target_and_stop_answers() {
    let mut st = state();
    match execute_command(&mut st, "memory-target 16", 0, &Ok(1)) {
        ControlStep::Call(InstanceCall::MemoryTarget { target_huge_frames: 16, .. }, p) => {
            let reply = MemoryTargetReply { sequence: 5, status: 0, target_pages: 8192, timeout_ms: 1000 };
            let r = done(resume_command(&mut st, p, Ok(InstanceReply::MemoryTarget(reply)), 0));
            assert_eq!(
                r,
                Ok("memory_target_huge_frames=16 seq=5 status=0 target_pages=8192 timeout_ms=1000".to_string())
            );
        },
        _ => panic!("expected a memory target call"),
    }
    assert_eq!(st.memory_target_huge_frames, 16);
    match execute_command(&mut st, "stop", 0, &Ok(1)) {
        ControlStep::Call(InstanceCall::Stop, p) => {
            let r = done(resume_command(&mut st, p, Ok(InstanceReply::Stopped(2)), 0));
            assert_eq!(r, Ok("microvm_stop instance=7 active_pcpus_signalled=2".to_string()));
        },
        _ => panic!("expected a stop call"),
    }
}

#[test]
fn policy_set_reads_back_and_repeats_idempotently() {
    let mut st = state();
    let r = set_hyperalloc_policy(&mut st, 8, Some(50), 1000);
    assert_eq!(
        r,
        "policy_set policy_enabled=1 policy_target_huge_frames=8 policy_interval_ms=100 policy_last_issued_seq=0 policy_last_completed_seq=0"
    );
    let p1 = st.policy.unwrap();
    assert_eq!(p1.last_tick_ms, 1000);
    set_hyperalloc_policy(&mut st, 8, Some(50), 5000);
    let p2 = st.policy.unwrap();
    assert_eq!((p2.target_huge_frames, p2.interval_ms, p2.last_tick_ms), (8, 100, 1000));
    set_hyperalloc_policy(&mut st, 0, None, 6000);
    assert!(st.policy.is_none());
    assert!(format_hyperalloc_policy_status(&st, 6000).starts_with("policy_status"));
}

#[test]
fn metrics_set_raises_interval() {
    let mut st = state();
    let r = set_hyperalloc_metrics(&mut st, 10, 0);
    assert_eq!(r, "metrics_set metrics_enabled=1 metrics_interval_ms=100 metrics_elapsed_ms=0");
    set_hyperalloc_metrics(&mut st, 0, 0);
    assert!(st.metrics.is_none());
}

#[test]
fn scheduler_switch_needs_scheduler() {
    let mut st = state();
    assert_eq!(
        set_hyperalloc_scheduler_adaptive(&mut st, true, 0),
        Err("HyperAlloc scheduler dry-run is disabled".to_string())
    );
    assert_eq!(validate_scheduler_desired_vcpus(2, 4), Ok(()));
    assert!(validate_scheduler_desired_vcpus(5, 4).is_err());
    assert!(validate_scheduler_desired_vcpus(0, 4).is_err());
    assert_eq!(validate_scheduler_io_goals(0, 0), Ok(()));
    assert!(validate_scheduler_io_goals(2000, 0).is_err());
}
