//! Building the JSON message bodies that travel to the backend.
//!
//! The input message `{"input":"..."}` is framed here byte by byte, with the
//! minimal string escaping that the JSON grammar requires: quote and
//! backslash get a backslash, control bytes become `\u00XX`, and every other
//! byte (including the bytes of multi-byte characters) passes through
//! unchanged.

use vstd::prelude::*;
use vstd::string::StringSliceAdditionalSpecFns;
use crate::bytestr::push_all;

verus! {

/// The lower-case hex digit of `n`.
pub open spec fn spec_hex_digit(n: nat) -> u8 {
    if n < 10 {
        (48 + n) as u8
    } else {
        (87 + n) as u8
    }
}

/// How one byte of a JSON string literal is written.
pub open spec fn spec_escape_byte(b: u8) -> Seq<u8> {
    if b == 34 {
        seq![92u8, 34u8]
    } else if b == 92 {
        seq![92u8, 92u8]
    } else if b < 32 {
        seq![
            92u8,
            117u8,
            48u8,
            48u8,
            spec_hex_digit((b / 16) as nat),
            spec_hex_digit((b % 16) as nat),
        ]
    } else {
        seq![b]
    }
}

/// The bytes of `s` written as the content of a JSON string literal.
pub open spec fn spec_json_escaped(s: Seq<u8>) -> Seq<u8>
    decreases s.len(),
{
    if s.len() == 0 {
        Seq::empty()
    } else {
        spec_escape_byte(s[0]) + spec_json_escaped(s.drop_first())
    }
}

/// Escaping one more byte appends that byte's escape.
proof fn lemma_escaped_push(s: Seq<u8>, b: u8)
    ensures
        spec_json_escaped(s.push(b)) == spec_json_escaped(s) + spec_escape_byte(b),
    decreases s.len(),
{
    let t = s.push(b);
    assert(t.len() == s.len() + 1);
    assert(t[0] == if s.len() == 0 { b } else { s[0] });
    if s.len() == 0 {
        assert(t.drop_first() =~= Seq::<u8>::empty());
        assert(spec_json_escaped(t) == spec_escape_byte(b) + spec_json_escaped(t.drop_first()));
        assert(spec_json_escaped(t.drop_first()) == Seq::<u8>::empty());
        assert(spec_escape_byte(b) + Seq::<u8>::empty() =~= spec_escape_byte(b));
        assert(spec_json_escaped(s) == Seq::<u8>::empty());
        assert(Seq::<u8>::empty() + spec_escape_byte(b) =~= spec_escape_byte(b));
    } else {
        assert(t.drop_first() =~= s.drop_first().push(b));
        lemma_escaped_push(s.drop_first(), b);
        assert(spec_json_escaped(t) == spec_escape_byte(s[0]) + (spec_json_escaped(s.drop_first())
            + spec_escape_byte(b)));
        assert(spec_escape_byte(s[0]) + (spec_json_escaped(s.drop_first()) + spec_escape_byte(b))
            =~= (spec_escape_byte(s[0]) + spec_json_escaped(s.drop_first())) + spec_escape_byte(
            b,
        ));
    }
}

/// The lower-case hex digit of `n`.
fn hex_digit(n: u8) -> (r: u8)
    requires
        n < 16,
    ensures
        r == spec_hex_digit(n as nat),
{
    if n < 10 {
        48 + n
    } else {
        87 + n
    }
}

/// Write the bytes of `s` as the content of a JSON string literal.
pub fn json_escape(s: &[u8]) -> (r: Vec<u8>)
    ensures
        r@ == spec_json_escaped(s@),
{
    let mut out: Vec<u8> = Vec::new();
    let mut i: usize = 0;
    proof {
        assert(s@.take(0) =~= Seq::<u8>::empty());
    }
    while i < s.len()
        invariant
            i <= s@.len(),
            out@ == spec_json_escaped(s@.take(i as int)),
        decreases s@.len() - i,
    {
        let b = s[i];
        if b == 34 {
            out.push(92);
            out.push(34);
        } else if b == 92 {
            out.push(92);
            out.push(92);
        } else if b < 32 {
            out.push(92);
            out.push(117);
            out.push(48);
            out.push(48);
            out.push(hex_digit(b / 16));
            out.push(hex_digit(b % 16));
        } else {
            out.push(b);
        }
        proof {
            assert(s@.take(i as int + 1) =~= s@.take(i as int).push(s@[i as int]));
            lemma_escaped_push(s@.take(i as int), s@[i as int]);
            assert(out@ =~= spec_json_escaped(s@.take(i as int)) + spec_escape_byte(s@[i as int]));
        }
        i = i + 1;
    }
    proof {
        assert(s@.take(s@.len() as int) =~= s@);
    }
    out
}

/// The JSON message `{"input":"..."}` carrying the user's text.
pub open spec fn spec_input_message(input: Seq<u8>) -> Seq<u8> {
    "{\"input\":\"".spec_bytes() + spec_json_escaped(input) + "\"}".spec_bytes()
}

/// Build the JSON message `{"input":"..."}` carrying the user's text.
pub fn build_input_message(input: &[u8]) -> (r: Vec<u8>)
    ensures
        r@ == spec_input_message(input@),
{
    let mut out: Vec<u8> = Vec::new();
    push_all(&mut out, "{\"input\":\"".as_bytes());
    let escaped = json_escape(input);
    push_all(&mut out, escaped.as_slice());
    push_all(&mut out, "\"}".as_bytes());
    out
}

} // verus!
