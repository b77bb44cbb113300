use sidecar_supervisor::bytestr::find_subslice;
use sidecar_supervisor::bytestr::trim_bytes;
use sidecar_supervisor::bytestr::u64_to_decimal;
use sidecar_supervisor::channel::build_input_request;
use sidecar_supervisor::channel::build_status_request;
use sidecar_supervisor::channel::build_stop_request;
use sidecar_supervisor::http::build_get_request;
use sidecar_supervisor::http::build_post_request;
use sidecar_supervisor::json::build_input_message;
use sidecar_supervisor::json::json_escape;

#[test]
fn decimal_digits_exact() {
    assert_eq!(u64_to_decimal(0), b"0".to_vec());
    assert_eq!(u64_to_decimal(7), b"7".to_vec());
    assert_eq!(u64_to_decimal(10), b"10".to_vec());
    assert_eq!(u64_to_decimal(12345), b"12345".to_vec());
    assert_eq!(u64_to_decimal(u64::MAX), b"18446744073709551615".to_vec());
}

#[test]
fn find_first_occurrence() {
    assert_eq!(find_subslice(b"abcabc", b"ca"), Some(2));
    assert_eq!(find_subslice(b"abcabc", b"abc"), Some(0));
    assert_eq!(find_subslice(b"abcabc", b"x"), None);
    assert_eq!(find_subslice(b"ab", b"abc"), None);
}

#[test]
fn trim_ascii_whitespace() {
    assert_eq!(trim_bytes(b"  x\r\n"), b"x".to_vec());
    assert_eq!(trim_bytes(b"\n\t \r"), b"".to_vec());
    assert_eq!(trim_bytes(b"a b"), b"a b".to_vec());
    assert_eq!(trim_bytes(b""), b"".to_vec());
}

#[test]
fn get_request_exact_bytes() {
    let expected = b"GET /status HTTP/1.1\r\nHost: localhost\r\nConnection: close\r\n\r\n".to_vec();
    assert_eq!(build_get_request(b"/status"), expected);
    assert_eq!(build_status_request(), expected);
}

#[test]
fn post_request_exact_bytes() {
    let expected = b"POST /stop HTTP/1.1\r\nHost: localhost\r\nContent-Type: application/json\r\nContent-Length: 2\r\nConnection: close\r\n\r\n{}".to_vec();
    assert_eq!(build_post_request(b"/stop", b"{}"), expected);
    assert_eq!(build_stop_request(), expected);
}

#[test]
fn input_message_plain() {
    assert_eq!(build_input_message(b"hello"), b"{\"input\":\"hello\"}".to_vec());
}

#[test]
fn input_message_escapes() {
    assert_eq!(
        build_input_message(b"he\"llo\\x\n"),
        b"{\"input\":\"he\\\"llo\\\\x\\u000a\"}".to_vec()
    );
}

#[test]
fn input_message_is_valid_json() {
    let message = build_input_message("quote \" slash \\ tab \t done".as_bytes());
    let value: serde_json::Value = serde_json::from_slice(&message).unwrap();
    assert_eq!(
        value.get("input").unwrap().as_str().unwrap(),
        "quote \" slash \\ tab \t done"
    );
}

#[test]
fn input_message_keeps_multibyte_text() {
    let message = build_input_message("héllo ✓".as_bytes());
    let value: serde_json::Value = serde_json::from_slice(&message).unwrap();
    assert_eq!(value.get("input").unwrap().as_str().unwrap(), "héllo ✓");
}

#[test]
fn input_request_exact_bytes() {
    let expected = b"POST /input HTTP/1.1\r\nHost: localhost\r\nContent-Type: application/json\r\nContent-Length: 17\r\nConnection: close\r\n\r\n{\"input\":\"hello\"}".to_vec();
    assert_eq!(build_input_request(b"hello"), expected);
}

#[test]
fn escape_passes_plain_bytes() {
    assert_eq!(json_escape(b"plain text 123"), b"plain text 123".to_vec());
    assert_eq!(json_escape(b"\x01"), b"\\u0001".to_vec());
    assert_eq!(json_escape(b"\x1f"), b"\\u001f".to_vec());
}
