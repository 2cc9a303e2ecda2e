use neuro_desktop::channel::{handle_payload, IPCHandler, PayloadStep, ERROR_THRESHOLD};
use neuro_desktop::dispatch::DriverCall;
use neuro_desktop::protocol::IPCCommand;
use neuro_desktop::response::IPCResponse;
use neuro_desktop::wire::serialize_response;

#[test]
fn new_derives_response_path_from_command_path() {
    let h = IPCHandler::new("/tmp/neuro_ipc.json");
    assert_eq!(h.ipc_file, b"/tmp/neuro_ipc.json".to_vec());
    assert_eq!(h.response_file, b"/tmp/neuro_ipc.json.response".to_vec());
    assert!(!h.running);
    assert_eq!(h.consecutive_errors, 0);
}

#[test]
fn start_raises_the_run_flag() {
    let mut h = IPCHandler::new("p");
    h.start();
    assert!(h.running);
}

#[test]
fn ten_consecutive_io_failures_force_the_flag_false() {
    let mut h = IPCHandler::new("p");
    h.start();
    for k in 1..=9u64 {
        h.note_io_failure();
        assert!(h.running, "still running after {} failures", k);
        assert_eq!(h.consecutive_errors, k);
    }
    h.note_io_failure();
    assert!(!h.running);
    assert_eq!(h.consecutive_errors, ERROR_THRESHOLD);
}

#[test]
fn a_successful_tick_resets_the_error_streak() {
    let mut h = IPCHandler::new("p");
    h.start();
    for _ in 0..9 {
        h.note_io_failure();
    }
    h.note_response_written(false);
    assert_eq!(h.consecutive_errors, 0);
    assert!(h.running);
    // the budget is whole again
    for _ in 0..9 {
        h.note_io_failure();
    }
    assert!(h.running);
}

#[test]
fn idle_ticks_reset_the_error_streak() {
    let mut h = IPCHandler::new("p");
    h.start();
    h.note_io_failure();
    h.note_io_failure();
    h.note_idle_tick();
    assert_eq!(h.consecutive_errors, 0);
    assert!(h.running);
}

#[test]
fn shutdown_takes_effect_only_after_the_response_was_written() {
    let mut h = IPCHandler::new("p");
    h.start();
    let payload = br#"{"type":"shutdown_gracefully"}"#.to_vec();
    let step = handle_payload(&payload, 1700000000);
    let cmd = match step {
        PayloadStep::Dispatch(cmd, plan) => {
            assert_eq!(plan.primary, Some(DriverCall::Shutdown));
            cmd
        },
        PayloadStep::Respond(r) => panic!("shutdown must dispatch, got {:?}", r),
    };
    assert_eq!(cmd, IPCCommand::ShutdownGracefully);
    // the caller executes the plan, builds the response, and only after
    // the write reports it; the flag is still up until then
    let response = IPCResponse::shutdown(1700000000);
    let bytes = serialize_response(&response);
    assert!(bytes.starts_with(br#"{"success":true,"data":{"shutdown":true}"#));
    assert!(h.running);
    h.note_response_written(response.carries_shutdown());
    assert!(!h.running);
}

#[test]
fn the_run_flag_never_rises_on_later_ticks() {
    let mut h = IPCHandler::new("p");
    h.start();
    h.note_response_written(true);
    assert!(!h.running);
    h.note_idle_tick();
    assert!(!h.running);
    h.note_response_written(false);
    assert!(!h.running);
    h.note_io_failure();
    assert!(!h.running);
}

#[test]
fn unparseable_payload_is_answered_not_dispatched() {
    let step = handle_payload(&b"garbage".to_vec(), 77);
    match step {
        PayloadStep::Respond(r) => {
            assert!(!r.success);
            assert_eq!(r.error, Some(b"Malformed command payload".to_vec()));
            assert_eq!(r.timestamp, 77);
        },
        PayloadStep::Dispatch(..) => panic!("garbage must not dispatch"),
    }
}

#[test]
fn unknown_command_is_answered_with_its_name() {
    let step = handle_payload(&br#"{"type":"fly"}"#.to_vec(), 0);
    match step {
        PayloadStep::Respond(r) => {
            assert!(!r.success);
            assert_eq!(r.error, Some(b"Unknown command type: fly".to_vec()));
        },
        PayloadStep::Dispatch(..) => panic!("unknown command must not dispatch"),
    }
}

#[test]
fn invalid_command_is_answered_without_any_driver_call() {
    let payload = br#"{"type":"move_mouse_to","params":{"x":-5,"y":5}}"#.to_vec();
    let step = handle_payload(&payload, 123);
    match step {
        PayloadStep::Respond(r) => {
            assert!(!r.success);
            assert_eq!(r.error, Some(b"Mouse coordinates must be non-negative".to_vec()));
            assert_eq!(r.timestamp, 123);
            let bytes = serialize_response(&r);
            assert_eq!(
                bytes,
                br#"{"success":false,"error":"Mouse coordinates must be non-negative","timestamp":123}"#.to_vec()
            );
        },
        PayloadStep::Dispatch(..) => panic!("invalid command must not dispatch"),
    }
}

#[test]
fn valid_command_is_dispatched_with_its_plan() {
    let payload = br#"{"type":"move_mouse_to","params":{"x":100,"y":200}}"#.to_vec();
    let step = handle_payload(&payload, 0);
    match step {
        PayloadStep::Dispatch(cmd, plan) => {
            assert!(matches!(cmd, IPCCommand::MoveMouseTo { .. }));
            assert_eq!(plan.primary, Some(DriverCall::QueueMove { x: 100, y: 200 }));
            assert!(plan.flush_after && plan.clear_after);
        },
        PayloadStep::Respond(r) => panic!("valid command must dispatch, got {:?}", r),
    }
}
