use sidecar_supervisor::decode_response;
use sidecar_supervisor::ChannelError;

#[test]
fn decode_json_round_trip() {
    let raw = b"HTTP/1.1 200 OK\r\nContent-Type: application/json\r\n\r\n{\"ok\": true}";
    let value = decode_response(raw).unwrap();
    let expected: serde_json::Value = serde_json::from_str("{\"ok\": true}").unwrap();
    assert_eq!(value, expected);
}

#[test]
fn decode_empty_body_is_empty_object() {
    let raw = b"HTTP/1.1 200 OK\r\n\r\n";
    let value = decode_response(raw).unwrap();
    assert_eq!(value, serde_json::Value::Object(serde_json::Map::new()));
}

#[test]
fn decode_lf_separator() {
    let raw = b"HTTP/1.0 200 OK\nContent-Type: application/json\n\n{\"a\": 1}";
    let value = decode_response(raw).unwrap();
    let expected: serde_json::Value = serde_json::from_str("{\"a\": 1}").unwrap();
    assert_eq!(value, expected);
}

#[test]
fn decode_without_separator_is_malformed() {
    let err = decode_response(b"no header terminator here").unwrap_err();
    assert!(matches!(err, ChannelError::MalformedResponse));
    assert_eq!(
        err.message(),
        "Invalid HTTP response format - no body separator found"
    );
}

#[test]
fn decode_bad_body_is_parse_error() {
    let raw = b"HTTP/1.1 200 OK\r\n\r\nnot json at all";
    let err = decode_response(raw).unwrap_err();
    assert!(matches!(err, ChannelError::Parse(_)));
    assert!(err.message().starts_with("Failed to parse response JSON: "));
}

#[test]
fn decode_trims_body_whitespace() {
    let raw = b"HTTP/1.1 200 OK\r\n\r\n  \r\n {\"a\": 2} \n ";
    let value = decode_response(raw).unwrap();
    let expected: serde_json::Value = serde_json::from_str("{\"a\": 2}").unwrap();
    assert_eq!(value, expected);
}

#[test]
fn transport_error_messages() {
    assert_eq!(
        ChannelError::Connect("refused".to_string()).message(),
        "Failed to connect to socket: refused"
    );
    assert_eq!(
        ChannelError::WriteFailed("broken pipe".to_string()).message(),
        "Failed to write to socket: broken pipe"
    );
    assert_eq!(
        ChannelError::ReadFailed("reset".to_string()).message(),
        "Failed to read from socket: reset"
    );
}
