use neuro_desktop::dispatch::{command_response, follow_up_calls, plan_command, DriverCall};
use neuro_desktop::protocol::{
    IPCCommand, KeyPressParams, KeyTypeParams, MouseClickParams, MouseMoveParams, RunScriptParams,
};
use neuro_desktop::response::ResponseData;
use neuro_desktop::stats::StatusData;

fn snapshot() -> StatusData {
    StatusData {
        total: 3,
        successful: 2,
        failed: 1,
        average_execution_time_ms: 12,
        uptime_seconds: 60,
    }
}

#[test]
fn move_with_defaults_queues_then_executes_then_clears() {
    let cmd = IPCCommand::MoveMouseTo {
        params: MouseMoveParams { x: 100, y: 200 },
        execute_now: None,
        clear_after: None,
    };
    let plan = plan_command(&cmd);
    assert_eq!(plan.primary, Some(DriverCall::QueueMove { x: 100, y: 200 }));
    assert!(plan.flush_after);
    assert!(plan.clear_after);
    let follow = follow_up_calls(&plan, true);
    assert_eq!(follow, vec![DriverCall::Execute, DriverCall::Clear]);
}

#[test]
fn failed_primary_leaves_queue_untouched() {
    let cmd = IPCCommand::MoveMouseTo {
        params: MouseMoveParams { x: 1, y: 1 },
        execute_now: None,
        clear_after: None,
    };
    let plan = plan_command(&cmd);
    assert_eq!(follow_up_calls(&plan, false), vec![]);
}

#[test]
fn modifiers_govern_follow_ups() {
    let cmd = IPCCommand::TypeText {
        params: KeyTypeParams { text: b"hi".to_vec() },
        execute_now: Some(false),
        clear_after: Some(true),
    };
    let plan = plan_command(&cmd);
    assert_eq!(plan.primary, Some(DriverCall::TypeText { text: b"hi".to_vec() }));
    assert_eq!(follow_up_calls(&plan, true), vec![DriverCall::Clear]);

    let cmd = IPCCommand::TypeText {
        params: KeyTypeParams { text: b"hi".to_vec() },
        execute_now: Some(true),
        clear_after: Some(false),
    };
    assert_eq!(follow_up_calls(&plan_command(&cmd), true), vec![DriverCall::Execute]);
}

#[test]
fn run_script_never_flushes_but_honours_clear() {
    let cmd = IPCCommand::RunScript {
        params: RunScriptParams { script: b"WAIT 1".to_vec() },
        execute_now: Some(true),
        clear_after: None,
    };
    let plan = plan_command(&cmd);
    assert_eq!(plan.primary, Some(DriverCall::RunScript { script: b"WAIT 1".to_vec() }));
    assert!(!plan.flush_after);
    assert!(plan.clear_after);
    assert_eq!(follow_up_calls(&plan, true), vec![DriverCall::Clear]);
}

#[test]
fn click_defaults_to_left_button() {
    let cmd = IPCCommand::MouseClick {
        params: MouseClickParams { button: None },
        execute_now: None,
        clear_after: None,
    };
    let plan = plan_command(&cmd);
    assert_eq!(plan.primary, Some(DriverCall::QueueClick { button: b"left".to_vec() }));
}

#[test]
fn key_press_builds_space_separated_chord() {
    let cmd = IPCCommand::KeyPress {
        params: KeyPressParams {
            key: b"c".to_vec(),
            modifiers: Some(vec![b"ctrl".to_vec(), b"shift".to_vec()]),
        },
        execute_now: None,
        clear_after: None,
    };
    let plan = plan_command(&cmd);
    assert_eq!(plan.primary, Some(DriverCall::PressKey { key: b"ctrl shift c".to_vec() }));

    let bare = IPCCommand::KeyPress {
        params: KeyPressParams { key: b"enter".to_vec(), modifiers: None },
        execute_now: None,
        clear_after: None,
    };
    assert_eq!(
        plan_command(&bare).primary,
        Some(DriverCall::PressKey { key: b"enter".to_vec() })
    );
}

#[test]
fn queue_commands_map_one_to_one() {
    let plan = plan_command(&IPCCommand::ExecuteQueue);
    assert_eq!(plan.primary, Some(DriverCall::Execute));
    assert!(!plan.flush_after && !plan.clear_after);
    let plan = plan_command(&IPCCommand::ClearActionQueue);
    assert_eq!(plan.primary, Some(DriverCall::Clear));
}

#[test]
fn status_commands_touch_no_driver() {
    assert_eq!(plan_command(&IPCCommand::GetStatus).primary, None);
    assert_eq!(plan_command(&IPCCommand::Heartbeat).primary, None);
}

#[test]
fn shutdown_commands_call_driver_shutdown() {
    assert_eq!(
        plan_command(&IPCCommand::ShutdownGracefully).primary,
        Some(DriverCall::Shutdown)
    );
    assert_eq!(
        plan_command(&IPCCommand::ShutdownImmediately).primary,
        Some(DriverCall::Shutdown)
    );
}

#[test]
fn successful_command_yields_success_with_timing() {
    let cmd = IPCCommand::MoveMouseTo {
        params: MouseMoveParams { x: 1, y: 2 },
        execute_now: None,
        clear_after: None,
    };
    let r = command_response(&cmd, &Ok(()), snapshot(), 1000, 25);
    assert!(r.success);
    assert_eq!(r.data, None);
    assert_eq!(r.error, None);
    assert_eq!(r.timestamp, 1000);
    assert_eq!(r.execution_time_ms, Some(25));
}

#[test]
fn failed_command_carries_prefixed_driver_error() {
    let cmd = IPCCommand::MoveMouseTo {
        params: MouseMoveParams { x: 1, y: 2 },
        execute_now: None,
        clear_after: None,
    };
    let r = command_response(&cmd, &Err(b"device gone".to_vec()), snapshot(), 0, 1);
    assert!(!r.success);
    assert_eq!(r.error, Some(b"Mouse move failed: device gone".to_vec()));

    let r = command_response(&IPCCommand::ExecuteQueue, &Err(b"x".to_vec()), snapshot(), 0, 1);
    assert_eq!(r.error, Some(b"Execute queue failed: x".to_vec()));
    let r = command_response(&IPCCommand::ClearActionQueue, &Err(b"x".to_vec()), snapshot(), 0, 1);
    assert_eq!(r.error, Some(b"Clear queue failed: x".to_vec()));
}

#[test]
fn status_and_heartbeat_always_succeed_with_snapshot() {
    for cmd in [IPCCommand::GetStatus, IPCCommand::Heartbeat] {
        let r = command_response(&cmd, &Err(b"ignored".to_vec()), snapshot(), 5, 6);
        assert!(r.success);
        assert_eq!(r.data, Some(ResponseData::Status(snapshot())));
        assert_eq!(r.error, None);
    }
}

#[test]
fn shutdown_reports_success_even_if_driver_failed() {
    let r = command_response(
        &IPCCommand::ShutdownGracefully,
        &Err(b"driver dead".to_vec()),
        snapshot(),
        5,
        6,
    );
    assert!(r.success);
    assert_eq!(r.data, Some(ResponseData::Shutdown));
    assert_eq!(r.error, None);
}
