//! The request/response bridge to the backend.
//!
//! One exchange is: build the request bytes for an endpoint, let the shell
//! move them over the socket and read the raw reply, then decode that reply
//! here. Transport failures are typed by `ChannelError`; the shell fills in
//! the connect/write/read variants, the decode path below produces the
//! malformed-response and parse variants, exactly as stated.

use vstd::prelude::*;
use vstd::string::StringExecFns;
use vstd::string::StringSliceAdditionalSpecFns;
use crate::bytestr::spec_trim;
use crate::bytestr::trim_bytes;
use crate::http::build_get_request;
use crate::http::build_post_request;
use crate::http::extract_body;
use crate::http::spec_body_of;
use crate::http::spec_get_request;
use crate::http::spec_post_request;
use crate::json::build_input_message;
use crate::json::spec_input_message;

verus! {

/// A failure of one request/response exchange. Recoverable: it never, by
/// itself, changes the supervisor's running state.
#[derive(Debug)]
pub enum ChannelError {
    /// The socket could not be connected; carries the cause.
    Connect(String),
    /// The request could not be written; carries the cause.
    WriteFailed(String),
    /// The response could not be read; carries the cause.
    ReadFailed(String),
    /// The response holds no header terminator.
    MalformedResponse,
    /// The response body is not JSON; carries the cause.
    Parse(String),
}

impl ChannelError {
    /// The human-readable description of this failure.
    pub open spec fn spec_message(&self) -> Seq<char> {
        match self {
            ChannelError::Connect(cause) => "Failed to connect to socket: "@ + cause@,
            ChannelError::WriteFailed(cause) => "Failed to write to socket: "@ + cause@,
            ChannelError::ReadFailed(cause) => "Failed to read from socket: "@ + cause@,
            ChannelError::MalformedResponse =>
                "Invalid HTTP response format - no body separator found"@,
            ChannelError::Parse(cause) => "Failed to parse response JSON: "@ + cause@,
        }
    }

    /// Describe this failure, as it is surfaced to the caller.
    pub fn message(&self) -> (r: String)
        ensures
            r@ == self.spec_message(),
    {
        match self {
            ChannelError::Connect(cause) => String::from_str("Failed to connect to socket: ")
                .concat(cause.as_str()),
            ChannelError::WriteFailed(cause) => String::from_str("Failed to write to socket: ")
                .concat(cause.as_str()),
            ChannelError::ReadFailed(cause) => String::from_str("Failed to read from socket: ")
                .concat(cause.as_str()),
            ChannelError::MalformedResponse => String::from_str(
                "Invalid HTTP response format - no body separator found",
            ),
            ChannelError::Parse(cause) => String::from_str("Failed to parse response JSON: ")
                .concat(cause.as_str()),
        }
    }
}

#[verifier::external_type_specification]
#[verifier::external_body]
pub struct ExValue(serde_json::Value);

/// Whether serde_json accepts these bytes as a JSON document. Parsing is a
/// function of the bytes alone, so the fact has a name; nothing else is
/// assumed of it.
pub uninterp spec fn json_accepts(s: Seq<u8>) -> bool;

/// Relies on serde_json::from_slice::<serde_json::Value>: it returns `Ok`
/// exactly when the bytes are a well-formed JSON document, a property of the
/// bytes alone, named `json_accepts`.
#[verifier::external_body]
fn parse_json(bytes: &[u8]) -> (r: Result<serde_json::Value, ChannelError>)
    ensures
        r is Ok <==> json_accepts(bytes@),
        r matches Err(e) ==> e is Parse,
{
    match serde_json::from_slice::<serde_json::Value>(bytes) {
        Ok(v) => Ok(v),
        Err(e) => Err(ChannelError::Parse(format!("{}", e))),
    }
}

/// Relies on serde_json::Map::new: the returned value is the empty JSON
/// object.
#[verifier::external_body]
fn empty_json_object() -> serde_json::Value {
    serde_json::Value::Object(serde_json::Map::new())
}

/// Decode a raw HTTP response from the backend: everything after the header
/// terminator is the body; an empty body stands for the empty JSON object;
/// anything else must parse as JSON.
///
/// Succeeds if and only if a header terminator occurs and the body is empty
/// or well-formed JSON; a missing terminator is `MalformedResponse`, a
/// malformed body is `Parse`.
pub fn decode_response(raw: &[u8]) -> (r: Result<serde_json::Value, ChannelError>)
    ensures
        spec_body_of(raw@) is None ==> (r matches Err(e) && e is MalformedResponse),
        spec_body_of(raw@) matches Some(body) ==> {
            &&& r is Ok <==> (body.len() == 0 || json_accepts(spec_trim(body)))
            &&& (body.len() > 0 && !json_accepts(spec_trim(body))) ==> (r matches Err(e) && e
                is Parse)
        },
{
    match extract_body(raw) {
        None => Err(ChannelError::MalformedResponse),
        Some(body) => {
            if body.len() == 0 {
                Ok(empty_json_object())
            } else {
                let trimmed = trim_bytes(body.as_slice());
                parse_json(trimmed.as_slice())
            }
        },
    }
}

/// Build the request that polls the backend's status endpoint.
pub fn build_status_request() -> (r: Vec<u8>)
    ensures
        r@ == spec_get_request("/status".spec_bytes()),
{
    build_get_request("/status".as_bytes())
}

/// Build the request that asks the backend to shut down voluntarily: an
/// empty JSON object posted to the stop endpoint.
pub fn build_stop_request() -> (r: Vec<u8>)
    ensures
        r@ == spec_post_request("/stop".spec_bytes(), "{}".spec_bytes()),
{
    build_post_request("/stop".as_bytes(), "{}".as_bytes())
}

/// Build the request that forwards the user's text to the backend's input
/// endpoint, framed as `{"input":"..."}`.
pub fn build_input_request(input: &[u8]) -> (r: Vec<u8>)
    ensures
        r@ == spec_post_request("/input".spec_bytes(), spec_input_message(input@)),
{
    let message = build_input_message(input);
    build_post_request("/input".as_bytes(), message.as_slice())
}

} // verus!
