//! HTTP/1.1 framing over the local socket: building request bytes and
//! extracting the body from raw response bytes.
//!
//! The unverified shell only moves these byte vectors over the socket; what
//! the bytes are is stated here, exactly, over the byte sequences.

use vstd::prelude::*;
use crate::bytestr::push_all;
use crate::bytestr::spec_decimal;
use crate::bytestr::spec_find;
use crate::bytestr::spec_match_at;
use crate::bytestr::spec_find_from;
use crate::bytestr::find_subslice;
use crate::bytestr::u64_to_decimal;
use vstd::string::StringSliceAdditionalSpecFns;

verus! {

/// The bytes of a GET request for `endpoint`, closing the connection after
/// one exchange.
pub open spec fn spec_get_request(endpoint: Seq<u8>) -> Seq<u8> {
    "GET ".spec_bytes() + endpoint
        + " HTTP/1.1\r\nHost: localhost\r\nConnection: close\r\n\r\n".spec_bytes()
}

/// The bytes of a POST request for `endpoint` carrying the JSON `body`, with
/// its exact content length, closing the connection after one exchange.
pub open spec fn spec_post_request(endpoint: Seq<u8>, body: Seq<u8>) -> Seq<u8> {
    "POST ".spec_bytes() + endpoint
        + " HTTP/1.1\r\nHost: localhost\r\nContent-Type: application/json\r\nContent-Length: ".spec_bytes()
        + spec_decimal(body.len()) + "\r\nConnection: close\r\n\r\n".spec_bytes() + body
}

/// Build the bytes of a GET request for `endpoint`.
pub fn build_get_request(endpoint: &[u8]) -> (r: Vec<u8>)
    ensures
        r@ == spec_get_request(endpoint@),
{
    let mut out: Vec<u8> = Vec::new();
    push_all(&mut out, "GET ".as_bytes());
    push_all(&mut out, endpoint);
    push_all(&mut out, " HTTP/1.1\r\nHost: localhost\r\nConnection: close\r\n\r\n".as_bytes());
    out
}

/// Build the bytes of a POST request for `endpoint` carrying the JSON
/// `body`.
pub fn build_post_request(endpoint: &[u8], body: &[u8]) -> (r: Vec<u8>)
    ensures
        r@ == spec_post_request(endpoint@, body@),
{
    let mut out: Vec<u8> = Vec::new();
    push_all(&mut out, "POST ".as_bytes());
    push_all(&mut out, endpoint);
    push_all(
        &mut out,
        " HTTP/1.1\r\nHost: localhost\r\nContent-Type: application/json\r\nContent-Length: ".as_bytes(),
    );
    let digits = u64_to_decimal(body.len() as u64);
    push_all(&mut out, digits.as_slice());
    push_all(&mut out, "\r\nConnection: close\r\n\r\n".as_bytes());
    push_all(&mut out, body);
    out
}

/// The header terminator in carriage-return/line-feed form.
pub open spec fn spec_sep_crlf() -> Seq<u8> {
    seq![13u8, 10u8, 13u8, 10u8]
}

/// The header terminator in bare line-feed form.
pub open spec fn spec_sep_lf() -> Seq<u8> {
    seq![10u8, 10u8]
}

/// The body of a raw HTTP response: everything after the first header
/// terminator, trying the carriage-return form first, then the bare
/// line-feed form. `None` when no terminator occurs: the response is
/// malformed.
pub open spec fn spec_body_of(raw: Seq<u8>) -> Option<Seq<u8>> {
    match spec_find(raw, spec_sep_crlf()) {
        Some(i) => Some(raw.subrange(i + 4, raw.len() as int)),
        None => match spec_find(raw, spec_sep_lf()) {
            Some(i) => Some(raw.subrange(i + 2, raw.len() as int)),
            None => None,
        },
    }
}

/// A position found by `spec_find_from` is a real match at or after the
/// start of the search.
proof fn lemma_find_from_some(h: Seq<u8>, needle: Seq<u8>, j: int, i: int)
    requires
        0 <= j,
        spec_find_from(h, needle, j) == Some(i),
    ensures
        spec_match_at(h, needle, i),
        j <= i,
    decreases h.len() - j,
{
    if j + needle.len() <= h.len() && !spec_match_at(h, needle, j) {
        lemma_find_from_some(h, needle, j + 1, i);
    }
}

/// Extract the body of a raw HTTP response, or `None` when no header
/// terminator occurs in it.
pub fn extract_body(raw: &[u8]) -> (r: Option<Vec<u8>>)
    ensures
        match r {
            Some(body) => spec_body_of(raw@) == Some(body@),
            None => spec_body_of(raw@) is None,
        },
{
    let raw_len: usize = raw.len();
    let mut sep_crlf: Vec<u8> = Vec::new();
    sep_crlf.push(13);
    sep_crlf.push(10);
    sep_crlf.push(13);
    sep_crlf.push(10);
    proof {
        assert(sep_crlf@ =~= spec_sep_crlf());
    }
    match find_subslice(raw, sep_crlf.as_slice()) {
        Some(i) => {
            proof {
                lemma_find_from_some(raw@, spec_sep_crlf(), 0, i as int);
                assert(i + 4 <= raw_len);
            }
            let part = vstd::slice::slice_subrange(raw, i + 4, raw_len);
            Some(vstd::slice::slice_to_vec(part))
        },
        None => {
            let mut sep_lf: Vec<u8> = Vec::new();
            sep_lf.push(10);
            sep_lf.push(10);
            proof {
                assert(sep_lf@ =~= spec_sep_lf());
            }
            match find_subslice(raw, sep_lf.as_slice()) {
                Some(i) => {
                    proof {
                        lemma_find_from_some(raw@, spec_sep_lf(), 0, i as int);
                        assert(i + 2 <= raw_len);
                    }
                    let part = vstd::slice::slice_subrange(raw, i + 2, raw_len);
                    Some(vstd::slice::slice_to_vec(part))
                },
                None => None,
            }
        },
    }
}

} // verus!
