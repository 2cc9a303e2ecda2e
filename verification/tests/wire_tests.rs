use neuro_desktop::response::IPCResponse;
use neuro_desktop::stats::StatusData;
use neuro_desktop::wire::{parse_response, serialize_response};

#[test]
fn serialize_success_exact_text() {
    let r = IPCResponse::success(1700000000);
    assert_eq!(
        serialize_response(&r),
        br#"{"success":true,"timestamp":1700000000}"#.to_vec()
    );
}

#[test]
fn serialize_failure_exact_text() {
    let r = IPCResponse::failure(b"Mouse move failed: boom".to_vec(), 7);
    assert_eq!(
        serialize_response(&r),
        br#"{"success":false,"error":"Mouse move failed: boom","timestamp":7}"#.to_vec()
    );
}

#[test]
fn serialize_shutdown_exact_text() {
    let r = IPCResponse::shutdown(42).with_execution_time(3);
    assert_eq!(
        serialize_response(&r),
        br#"{"success":true,"data":{"shutdown":true},"timestamp":42,"execution_time_ms":3}"#
            .to_vec()
    );
}

#[test]
fn serialize_status_exact_text() {
    let st = StatusData {
        total: 10,
        successful: 8,
        failed: 2,
        average_execution_time_ms: 15,
        uptime_seconds: 3600,
    };
    let r = IPCResponse::status(st, 99).with_execution_time(0);
    let expected = br#"{"success":true,"data":{"total":10,"successful":8,"failed":2,"average_execution_time_ms":15,"uptime_seconds":3600},"timestamp":99,"execution_time_ms":0}"#.to_vec();
    assert_eq!(serialize_response(&r), expected);
}

#[test]
fn serialize_escapes_error_text() {
    let r = IPCResponse::failure(b"a\"b\\c\nd\re\tf\x01g".to_vec(), 0);
    assert_eq!(
        serialize_response(&r),
        b"{\"success\":false,\"error\":\"a\\\"b\\\\c\\nd\\re\\tf\\u0001g\",\"timestamp\":0}"
            .to_vec()
    );
}

fn round_trip(r: &IPCResponse) {
    let bytes = serialize_response(r);
    let back = parse_response(&bytes).expect("canonical form must parse");
    assert_eq!(&back, r);
}

#[test]
fn round_trip_all_shapes() {
    round_trip(&IPCResponse::success(0));
    round_trip(&IPCResponse::success(u64::MAX));
    round_trip(&IPCResponse::success(123).with_execution_time(u64::MAX));
    round_trip(&IPCResponse::failure(b"".to_vec(), 5));
    round_trip(&IPCResponse::failure(b"plain reason".to_vec(), 5).with_execution_time(17));
    round_trip(&IPCResponse::failure(b"odd \" \\ \n \t \r \x00 \x1f bytes".to_vec(), 5));
    round_trip(&IPCResponse::shutdown(1700000001));
    round_trip(&IPCResponse::shutdown(1700000001).with_execution_time(2));
    let st = StatusData {
        total: u64::MAX,
        successful: 0,
        failed: u64::MAX,
        average_execution_time_ms: 1,
        uptime_seconds: 0,
    };
    round_trip(&IPCResponse::status(st, 8).with_execution_time(9));
}

#[test]
fn round_trip_non_ascii_error_bytes() {
    round_trip(&IPCResponse::failure("Fehler: übel ü 漢字".as_bytes().to_vec(), 1));
}

#[test]
fn parse_response_rejects_non_canonical() {
    let cases: Vec<&[u8]> = vec![
        b"",
        b"{}",
        br#"{"success":true}"#,
        br#"{"success":true,"timestamp":1} "#,
        br#"{"timestamp":1,"success":true}"#,
        br#"{"success":yes,"timestamp":1}"#,
    ];
    for payload in cases {
        assert!(parse_response(&payload.to_vec()).is_none(), "payload: {:?}", payload);
    }
}

#[test]
fn parse_response_reads_canonical_text() {
    let bytes = br#"{"success":false,"error":"no","timestamp":3,"execution_time_ms":4}"#.to_vec();
    let r = parse_response(&bytes).unwrap();
    assert_eq!(r.success, false);
    assert_eq!(r.data, None);
    assert_eq!(r.error, Some(b"no".to_vec()));
    assert_eq!(r.timestamp, 3);
    assert_eq!(r.execution_time_ms, Some(4));
}

#[test]
fn shutdown_marker_is_detected() {
    assert!(IPCResponse::shutdown(0).carries_shutdown());
    assert!(!IPCResponse::success(0).carries_shutdown());
    assert!(!IPCResponse::failure(b"x".to_vec(), 0).carries_shutdown());
    let st = StatusData {
        total: 0,
        successful: 0,
        failed: 0,
        average_execution_time_ms: 0,
        uptime_seconds: 0,
    };
    assert!(!IPCResponse::status(st, 0).carries_shutdown());
}
