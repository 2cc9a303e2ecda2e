use neuro_desktop::control::{after_restart, control_tick, ControlDecision, CONTROL_TICK_SECS};
use neuro_desktop::stats::Statistics;
use neuro_desktop::supervisor::{
    binary_file_name, GoProcessManager, ProbeResult, SupervisorError, RESTART_COOLDOWN_MS,
};

#[test]
fn missing_binary_fails_fast_naming_the_path() {
    let r = GoProcessManager::new(b"/opt/bridge/neuro-integration".to_vec(), false);
    assert_eq!(
        r.unwrap_err(),
        SupervisorError::BinaryNotFound { path: b"/opt/bridge/neuro-integration".to_vec() }
    );
}

#[test]
fn present_binary_starts_absent() {
    let m = GoProcessManager::new(b"/x/neuro-integration".to_vec(), true).unwrap();
    assert_eq!(m.child, None);
    assert_eq!(m.binary_path, b"/x/neuro-integration".to_vec());
}

#[test]
fn start_plan_spawns_only_when_absent() {
    let mut m = GoProcessManager::new(b"/x/neuro-integration".to_vec(), true).unwrap();
    let spec = m
        .start_plan(&b"ws://localhost:8000".to_vec(), &b"/tmp/ipc.json".to_vec())
        .expect("absent supervisor must spawn");
    assert_eq!(spec.program, b"/x/neuro-integration".to_vec());
    assert_eq!(spec.ws_url, b"ws://localhost:8000".to_vec());
    assert_eq!(spec.ipc_file, b"/tmp/ipc.json".to_vec());
    m.record_spawn(4242);
    assert!(m
        .start_plan(&b"ws://localhost:8000".to_vec(), &b"/tmp/ipc.json".to_vec())
        .is_none());
}

#[test]
fn probe_folds_an_exited_child_back_to_absent() {
    let mut m = GoProcessManager::new(b"/x/b".to_vec(), true).unwrap();
    m.record_spawn(1);
    assert!(m.is_running(Some(ProbeResult::Alive)));
    assert_eq!(m.child, Some(1));
    assert!(!m.is_running(Some(ProbeResult::Exited)));
    assert_eq!(m.child, None);
    assert!(!m.is_running(None));
}

#[test]
fn probe_error_reports_down_but_keeps_the_handle() {
    let mut m = GoProcessManager::new(b"/x/b".to_vec(), true).unwrap();
    m.record_spawn(7);
    assert!(!m.is_running(Some(ProbeResult::Error)));
    assert_eq!(m.child, Some(7));
    // a later stop still kills it
    assert_eq!(m.stop(), Some(7));
}

#[test]
fn stop_twice_with_no_child_changes_nothing() {
    let mut m = GoProcessManager::new(b"/x/b".to_vec(), true).unwrap();
    let before = m.clone();
    assert_eq!(m.stop(), None);
    assert_eq!(m, before);
    assert_eq!(m.stop(), None);
    assert_eq!(m, before);
}

#[test]
fn stop_hands_out_the_child_exactly_once() {
    let mut m = GoProcessManager::new(b"/x/b".to_vec(), true).unwrap();
    m.record_spawn(99);
    assert_eq!(m.stop(), Some(99));
    assert_eq!(m.stop(), None);
}

#[test]
fn binary_name_differs_only_by_platform_suffix() {
    assert_eq!(binary_file_name(false), b"neuro-integration".to_vec());
    assert_eq!(binary_file_name(true), b"neuro-integration.exe".to_vec());
}

#[test]
fn cadence_constants() {
    assert_eq!(RESTART_COOLDOWN_MS, 500);
    assert_eq!(CONTROL_TICK_SECS, 5);
}

#[test]
fn control_prefers_channel_shutdown_over_restart() {
    assert_eq!(control_tick(false, false), ControlDecision::ShutdownAll);
    assert_eq!(control_tick(false, true), ControlDecision::ShutdownAll);
    assert_eq!(control_tick(true, false), ControlDecision::RestartBridge);
    assert_eq!(control_tick(true, true), ControlDecision::Continue);
}

#[test]
fn failed_restart_is_fatal() {
    assert!(after_restart(false));
    assert!(!after_restart(true));
}

#[test]
fn statistics_count_every_outcome() {
    let mut s = Statistics::new();
    let outcomes = [true, true, false, true, false, false, true];
    for (i, &ok) in outcomes.iter().enumerate() {
        s.record(ok, (i as u64) * 10);
    }
    assert_eq!(s.total, 7);
    assert_eq!(s.successful, 4);
    assert_eq!(s.failed, 3);
}

#[test]
fn statistics_average_is_incremental() {
    let mut s = Statistics::new();
    s.record(true, 10);
    assert_eq!(s.average_execution_time_ms, 10);
    s.record(true, 20);
    assert_eq!(s.average_execution_time_ms, 15);
    s.record(false, 33);
    // (15*2 + 33) / 3 = 21
    assert_eq!(s.average_execution_time_ms, 21);
}

#[test]
fn statistics_snapshot_carries_uptime() {
    let mut s = Statistics::new();
    s.record(true, 4);
    let d = s.snapshot(3600);
    assert_eq!(d.total, 1);
    assert_eq!(d.successful, 1);
    assert_eq!(d.failed, 0);
    assert_eq!(d.average_execution_time_ms, 4);
    assert_eq!(d.uptime_seconds, 3600);
}
