use axcli::control::{
    clamp_hyperalloc_eval_interval_ms, clamp_hyperalloc_metrics_interval_ms, clamp_hyperalloc_policy_interval_ms,
    clamp_hyperalloc_scheduler_interval_ms, new_control_state, parse_scheduler_adaptive_vfio_queue_cap_env,
    parse_scheduler_bool_env, parse_scheduler_u16_env, ControlEnv, EnvValue, SchedulerEnv,
};
use axcli::control_poll::{
    hyperalloc_policy_on_issued, hyperalloc_policy_on_query, poll_metrics_once, poll_policy_eval_once,
    poll_policy_once, poll_scheduler_once, PolicyDecision, PolicySkip, TickStep,
};
use axcli::control_step::InstanceCall;
use axcli::hyperalloc::{
    hyperalloc_pagecache_request_outstanding, hyperalloc_policy_eval, hyperalloc_query_flag, Decision,
    HyperAllocQuery, Reason, QUERY_FLAG_RETAIN_HPA, QUERY_FLAG_VFIO_PRESENT,
};
use axcli::scheduler::{
    ControlState, HyperAllocMetricsSampler, HyperAllocPolicy, HyperAllocPolicyEvaluator, MemoryTargetReply,
};

fn state() -> ControlState {
    ControlState {
        instance_id: 1,
        has_block_backend: true,
        has_vfio_backend: false,
        max_vcpus: 4,
        desired_vcpus: 2,
        memory_target_huge_frames: 0,
        policy: None,
        metrics: None,
        evaluator: None,
        scheduler: None,
        block_backend_io_weight: 0,
    }
}

fn absent_env() -> ControlEnv {
    ControlEnv {
        policy_target: EnvValue::Absent,
        policy_interval: EnvValue::Absent,
        metrics_interval: EnvValue::Absent,
        eval_interval: EnvValue::Absent,
        eval_target: EnvValue::Absent,
        scheduler: SchedulerEnv {
            interval: EnvValue::Absent,
            target: EnvValue::Absent,
            desired_vcpus: EnvValue::Absent,
            vfio_queue_goal: EnvValue::Absent,
            block_io_weight: EnvValue::Absent,
            eqgate_drain_budget: EnvValue::Absent,
            adaptive: EnvValue::Absent,
            adaptive_vfio_queue_cap: EnvValue::Absent,
        },
    }
}

#[test]
fn policy_evaluation_precedence() {
    let mut q = HyperAllocQuery::default();
    assert_eq!(hyperalloc_policy_eval(&q, 4), (Decision::Eligible, Reason::BelowTarget));
    q.last_pagecache_shrink_seq = 3;
    q.pagecache_shrink_completed_requests = 1;
    q.last_pagecache_shrink_target_huge_frames = 4;
    assert_eq!(hyperalloc_policy_eval(&q, 4), (Decision::Hold, Reason::Stable));
    assert_eq!(hyperalloc_policy_eval(&q, 8), (Decision::Eligible, Reason::TargetChanged));
    q.pagecache_shrink_pending_requests = 2;
    assert!(hyperalloc_pagecache_request_outstanding(&q));
    assert_eq!(hyperalloc_policy_eval(&q, 8), (Decision::Wait, Reason::Pending));
    q.vfio_guest_ram_mmap_stale = 1;
    assert_eq!(hyperalloc_policy_eval(&q, 8), (Decision::Hold, Reason::MmapStale));
    q.vfio_physical_reclaim_block_reason = 2;
    assert_eq!(hyperalloc_policy_eval(&q, 8), (Decision::Hold, Reason::VfioBlocked));
    q.flags = QUERY_FLAG_RETAIN_HPA;
    assert_eq!(hyperalloc_query_flag(&q, QUERY_FLAG_RETAIN_HPA), 1);
    assert_eq!(hyperalloc_query_flag(&q, QUERY_FLAG_VFIO_PRESENT), 0);
}

#[test]
fn interval_clamps() {
    assert_eq!(clamp_hyperalloc_policy_interval_ms(5), 100);
    assert_eq!(clamp_hyperalloc_policy_interval_ms(500), 500);
    assert_eq!(clamp_hyperalloc_metrics_interval_ms(0), 100);
    assert_eq!(clamp_hyperalloc_eval_interval_ms(101), 101);
    assert_eq!(clamp_hyperalloc_scheduler_interval_ms(99), 100);
}

#[test]
fn environment_settings() {
    assert_eq!(parse_scheduler_u16_env(&EnvValue::Absent, "X", 7), Ok(7));
    assert_eq!(parse_scheduler_u16_env(&EnvValue::Present("12".to_string()), "X", 7), Ok(12));
    assert!(parse_scheduler_u16_env(&EnvValue::Present("70000".to_string()), "X", 7).is_err());
    assert_eq!(parse_scheduler_bool_env(&EnvValue::Present("1".to_string()), "X", false), Ok(true));
    assert_eq!(parse_scheduler_bool_env(&EnvValue::Absent, "X", true), Ok(true));
    assert_eq!(parse_scheduler_adaptive_vfio_queue_cap_env(&EnvValue::Absent), Ok(1));
    assert!(parse_scheduler_adaptive_vfio_queue_cap_env(&EnvValue::Present("2000".to_string())).is_err());
    let st = new_control_state(9, 2, 4, false, false, &absent_env(), 0).unwrap();
    assert_eq!((st.instance_id, st.desired_vcpus, st.max_vcpus), (9, 2, 4));
    assert!(st.policy.is_none() && st.metrics.is_none() && st.evaluator.is_none() && st.scheduler.is_none());
    let mut env = absent_env();
    env.scheduler.interval = EnvValue::Present("50".to_string());
    env.scheduler.desired_vcpus = EnvValue::Present("3".to_string());
    let st = new_control_state(9, 2, 4, false, false, &env, 0).unwrap();
    let sc = st.scheduler.unwrap();
    assert_eq!((sc.interval_ms, sc.desired_vcpus, sc.target_huge_frames), (100, 3, 1));
    env.scheduler.desired_vcpus = EnvValue::Present("5".to_string());
    assert!(new_control_state(9, 2, 4, false, false, &env, 0).is_err());
}

#[test]
fn timers_fire_when_due() {
    let mut st = state();
    st.policy = Some(HyperAllocPolicy {
        target_huge_frames: 8,
        interval_ms: 100,
        last_tick_ms: 1000,
        last_issued_seq: 0,
        last_completed_seq: 0,
    });
    assert_eq!(poll_policy_once(&mut st, 1050), None);
    assert_eq!(poll_policy_once(&mut st, 1100), Some(InstanceCall::Query));
    assert_eq!(st.policy.unwrap().last_tick_ms, 1100);
    st.metrics = Some(HyperAllocMetricsSampler { interval_ms: 200, last_sample_ms: 0 });
    assert_eq!(poll_metrics_once(&mut st, 100), None);
    assert_eq!(poll_metrics_once(&mut st, 200), Some(InstanceCall::Query));
    st.evaluator = Some(HyperAllocPolicyEvaluator { interval_ms: 100, last_eval_ms: 0, target_huge_frames: 6 });
    assert_eq!(poll_policy_eval_once(&mut st, 150), Some(6));
    assert_eq!(poll_policy_eval_once(&mut st, 160), None);
    assert!(matches!(poll_scheduler_once(&mut st, 10_000), TickStep::Idle));
}

#[test]
fn host_policy_issues_and_records() {
    let mut st = state();
    let q = HyperAllocQuery::default();
    assert_eq!(hyperalloc_policy_on_query(&mut st, &q), PolicyDecision::Off);
    st.policy = Some(HyperAllocPolicy {
        target_huge_frames: 8,
        interval_ms: 100,
        last_tick_ms: 0,
        last_issued_seq: 0,
        last_completed_seq: 0,
    });
    assert_eq!(hyperalloc_policy_on_query(&mut st, &q), PolicyDecision::Issue { target_huge_frames: 8 });
    let reply = MemoryTargetReply { sequence: 4, status: 0, target_pages: 0, timeout_ms: 1000 };
    hyperalloc_policy_on_issued(&mut st, 8, &reply);
    assert_eq!(st.memory_target_huge_frames, 8);
    assert_eq!(st.policy.unwrap().last_issued_seq, 4);
    let mut done = HyperAllocQuery::default();
    done.last_pagecache_shrink_seq = 4;
    assert_eq!(hyperalloc_policy_on_query(&mut st, &done), PolicyDecision::Skip(PolicySkip::Completed));
    assert_eq!(st.policy.unwrap().last_completed_seq, 4);
    assert_eq!(hyperalloc_policy_on_query(&mut st, &done), PolicyDecision::Skip(PolicySkip::Stable));
    let mut busy = HyperAllocQuery::default();
    busy.pagecache_shrink_pending_requests = 1;
    assert_eq!(hyperalloc_policy_on_query(&mut st, &busy), PolicyDecision::Skip(PolicySkip::Pending));
}
