use neuro_desktop::parse::{parse_command, ProtocolError};
use neuro_desktop::protocol::{
    IPCCommand, KeyPressParams, KeyTypeParams, MouseClickParams, MouseMoveParams, RunScriptParams,
};

fn move_cmd(x: i32, y: i32) -> IPCCommand {
    IPCCommand::MoveMouseTo {
        params: MouseMoveParams { x, y },
        execute_now: None,
        clear_after: None,
    }
}

#[test]
fn validate_accepts_in_range_coordinates() {
    assert!(move_cmd(0, 0).validate().is_ok());
    assert!(move_cmd(10000, 10000).validate().is_ok());
    assert!(move_cmd(100, 200).validate().is_ok());
    assert!(move_cmd(0, 10000).validate().is_ok());
}

#[test]
fn validate_rejects_negative_coordinates() {
    let err = move_cmd(-5, 5).validate().unwrap_err();
    assert_eq!(err, b"Mouse coordinates must be non-negative".to_vec());
    assert!(move_cmd(5, -5).validate().is_err());
    assert!(move_cmd(-1, -1).validate().is_err());
}

#[test]
fn validate_rejects_too_large_coordinates() {
    let err = move_cmd(10001, 5).validate().unwrap_err();
    assert_eq!(err, b"Mouse coordinates must be at most 10000".to_vec());
    assert!(move_cmd(5, 10001).validate().is_err());
}

#[test]
fn validate_text_length_boundary() {
    let ok = IPCCommand::TypeText {
        params: KeyTypeParams { text: vec![b'a'; 10000] },
        execute_now: None,
        clear_after: None,
    };
    assert!(ok.validate().is_ok());
    let long = IPCCommand::TypeText {
        params: KeyTypeParams { text: vec![b'a'; 10001] },
        execute_now: None,
        clear_after: None,
    };
    let err = long.validate().unwrap_err();
    assert_eq!(err, b"Text must be at most 10000 bytes".to_vec());
}

#[test]
fn validate_script_length_boundary() {
    let ok = IPCCommand::RunScript {
        params: RunScriptParams { script: vec![b'x'; 50000] },
        execute_now: None,
        clear_after: None,
    };
    assert!(ok.validate().is_ok());
    let long = IPCCommand::RunScript {
        params: RunScriptParams { script: vec![b'x'; 50001] },
        execute_now: None,
        clear_after: None,
    };
    let err = long.validate().unwrap_err();
    assert_eq!(err, b"Script must be at most 50000 bytes".to_vec());
}

#[test]
fn validate_accepts_simple_commands() {
    assert!(IPCCommand::ExecuteQueue.validate().is_ok());
    assert!(IPCCommand::ClearActionQueue.validate().is_ok());
    assert!(IPCCommand::GetStatus.validate().is_ok());
    assert!(IPCCommand::Heartbeat.validate().is_ok());
    assert!(IPCCommand::ShutdownGracefully.validate().is_ok());
    assert!(IPCCommand::ShutdownImmediately.validate().is_ok());
}

#[test]
fn parse_move_mouse_to() {
    let payload = br#"{"type":"move_mouse_to","params":{"x":100,"y":200}}"#.to_vec();
    let cmd = parse_command(&payload).unwrap();
    assert_eq!(cmd, move_cmd(100, 200));
}

#[test]
fn parse_move_mouse_to_negative() {
    let payload = br#"{"type":"move_mouse_to","params":{"x":-5,"y":5}}"#.to_vec();
    let cmd = parse_command(&payload).unwrap();
    assert_eq!(cmd, move_cmd(-5, 5));
}

#[test]
fn parse_move_mouse_to_with_modifiers() {
    let payload =
        br#"{"type":"move_mouse_to","params":{"x":1,"y":2},"execute_now":false,"clear_after":true}"#
            .to_vec();
    let cmd = parse_command(&payload).unwrap();
    assert_eq!(
        cmd,
        IPCCommand::MoveMouseTo {
            params: MouseMoveParams { x: 1, y: 2 },
            execute_now: Some(false),
            clear_after: Some(true),
        }
    );
}

#[test]
fn parse_mouse_click_with_button() {
    let payload = br#"{"type":"mouse_click","params":{"button":"right"}}"#.to_vec();
    let cmd = parse_command(&payload).unwrap();
    assert_eq!(
        cmd,
        IPCCommand::MouseClick {
            params: MouseClickParams { button: Some(b"right".to_vec()) },
            execute_now: None,
            clear_after: None,
        }
    );
}

#[test]
fn parse_mouse_click_without_button() {
    let payload = br#"{"type":"mouse_click","params":{}}"#.to_vec();
    let cmd = parse_command(&payload).unwrap();
    assert_eq!(
        cmd,
        IPCCommand::MouseClick {
            params: MouseClickParams { button: None },
            execute_now: None,
            clear_after: None,
        }
    );
}

#[test]
fn parse_key_press_with_modifier_list() {
    let payload =
        br#"{"type":"key_press","params":{"key":"c","modifiers":["ctrl","shift"]}}"#.to_vec();
    let cmd = parse_command(&payload).unwrap();
    assert_eq!(
        cmd,
        IPCCommand::KeyPress {
            params: KeyPressParams {
                key: b"c".to_vec(),
                modifiers: Some(vec![b"ctrl".to_vec(), b"shift".to_vec()]),
            },
            execute_now: None,
            clear_after: None,
        }
    );
}

#[test]
fn parse_key_press_empty_modifier_list() {
    let payload = br#"{"type":"key_press","params":{"key":"enter","modifiers":[]}}"#.to_vec();
    let cmd = parse_command(&payload).unwrap();
    assert_eq!(
        cmd,
        IPCCommand::KeyPress {
            params: KeyPressParams { key: b"enter".to_vec(), modifiers: Some(vec![]) },
            execute_now: None,
            clear_after: None,
        }
    );
}

#[test]
fn parse_key_press_without_modifiers() {
    let payload = br#"{"type":"key_press","params":{"key":"enter"}}"#.to_vec();
    let cmd = parse_command(&payload).unwrap();
    assert_eq!(
        cmd,
        IPCCommand::KeyPress {
            params: KeyPressParams { key: b"enter".to_vec(), modifiers: None },
            execute_now: None,
            clear_after: None,
        }
    );
}

#[test]
fn parse_type_text_with_escapes() {
    let payload = br#"{"type":"type_text","params":{"text":"line1\nline2\t\"quoted\""}}"#.to_vec();
    let cmd = parse_command(&payload).unwrap();
    assert_eq!(
        cmd,
        IPCCommand::TypeText {
            params: KeyTypeParams { text: b"line1\nline2\t\"quoted\"".to_vec() },
            execute_now: None,
            clear_after: None,
        }
    );
}

#[test]
fn parse_run_script() {
    let payload = br#"{"type":"run_script","params":{"script":"PRESS enter"},"clear_after":false}"#
        .to_vec();
    let cmd = parse_command(&payload).unwrap();
    assert_eq!(
        cmd,
        IPCCommand::RunScript {
            params: RunScriptParams { script: b"PRESS enter".to_vec() },
            execute_now: None,
            clear_after: Some(false),
        }
    );
}

#[test]
fn parse_simple_commands() {
    let cases: Vec<(&[u8], IPCCommand)> = vec![
        (br#"{"type":"execute_queue"}"#, IPCCommand::ExecuteQueue),
        (br#"{"type":"clear_action_queue"}"#, IPCCommand::ClearActionQueue),
        (br#"{"type":"get_status"}"#, IPCCommand::GetStatus),
        (br#"{"type":"heartbeat"}"#, IPCCommand::Heartbeat),
        (br#"{"type":"shutdown_gracefully"}"#, IPCCommand::ShutdownGracefully),
        (br#"{"type":"shutdown_immediately"}"#, IPCCommand::ShutdownImmediately),
    ];
    for (payload, expected) in cases {
        assert_eq!(parse_command(&payload.to_vec()).unwrap(), expected);
    }
}

#[test]
fn parse_unknown_type_is_reported() {
    let payload = br#"{"type":"dance"}"#.to_vec();
    let err = parse_command(&payload).unwrap_err();
    assert_eq!(err, ProtocolError::UnknownType { name: b"dance".to_vec() });
    assert_eq!(err.message(), b"Unknown command type: dance".to_vec());
}

#[test]
fn parse_malformed_payloads() {
    let cases: Vec<&[u8]> = vec![
        b"",
        b"not json",
        br#"{"type":"move_mouse_to"}"#,
        br#"{"type":"move_mouse_to","params":{"x":1}}"#,
        br#"{"type":"move_mouse_to","params":{"x":1,"y":2}"#,
        br#"{"type":"move_mouse_to","params":{"x":1,"y":2}}trailing"#,
        br#"{"type":"type_text","params":{"text":"unterminated}}"#,
        br#"{"type":"execute_queue","params":{}}"#,
    ];
    for payload in cases {
        let err = parse_command(&payload.to_vec()).unwrap_err();
        assert_eq!(err, ProtocolError::Malformed, "payload: {:?}", payload);
        assert_eq!(err.message(), b"Malformed command payload".to_vec());
    }
}

#[test]
fn parse_rejects_coordinates_outside_i32() {
    let payload = br#"{"type":"move_mouse_to","params":{"x":3000000000,"y":0}}"#.to_vec();
    assert_eq!(parse_command(&payload).unwrap_err(), ProtocolError::Malformed);
    let payload = br#"{"type":"move_mouse_to","params":{"x":-2147483648,"y":2147483647}}"#.to_vec();
    let cmd = parse_command(&payload).unwrap();
    assert_eq!(cmd, move_cmd(-2147483648, 2147483647));
}
