//! Verified byte-string helpers: appending, searching, trimming and decimal
//! formatting, used by the wire framing.

use vstd::prelude::*;

verus! {

/// Append a whole slice to a byte vector.
pub fn push_all(out: &mut Vec<u8>, s: &[u8])
    ensures
        final(out)@ == old(out)@ + s@,
{
    let mut i: usize = 0;
    while i < s.len()
        invariant
            i <= s@.len(),
            out@ == old(out)@ + s@.subrange(0, i as int),
        decreases s@.len() - i,
    {
        out.push(s[i]);
        proof {
            assert(old(out)@ + s@.subrange(0, i as int + 1) =~= (old(out)@ + s@.subrange(
                0,
                i as int,
            )).push(s@[i as int]));
        }
        i = i + 1;
    }
    proof {
        assert(s@.subrange(0, s@.len() as int) =~= s@);
    }
}

/// The ASCII decimal digits of `n`, most significant first.
pub open spec fn spec_decimal(n: nat) -> Seq<u8>
    decreases n,
{
    if n < 10 {
        seq![(48 + n) as u8]
    } else {
        spec_decimal(n / 10).push((48 + n % 10) as u8)
    }
}

/// Format `n` in ASCII decimal, most significant digit first.
pub fn u64_to_decimal(n: u64) -> (r: Vec<u8>)
    ensures
        r@ == spec_decimal(n as nat),
    decreases n,
{
    proof {
        assert(n as nat % 10 < 10) by (nonlinear_arith);
        assert(n >= 10 ==> n as nat / 10 < n as nat) by (nonlinear_arith);
    }
    if n < 10 {
        let mut v: Vec<u8> = Vec::new();
        v.push(48 + (n as u8));
        proof {
            assert(v@ =~= spec_decimal(n as nat));
        }
        v
    } else {
        let mut v = u64_to_decimal(n / 10);
        v.push(48 + ((n % 10) as u8));
        v
    }
}

/// Whether the `needle.len()` bytes of `h` starting at `i` equal `needle`.
pub open spec fn spec_match_at(h: Seq<u8>, needle: Seq<u8>, i: int) -> bool {
    &&& 0 <= i
    &&& i + needle.len() <= h.len()
    &&& forall|k: int| 0 <= k < needle.len() ==> h[i + k] == needle[k]
}

/// The position of the first occurrence of `needle` in `h` at or after `i`.
pub open spec fn spec_find_from(h: Seq<u8>, needle: Seq<u8>, i: int) -> Option<int>
    decreases h.len() - i,
    when 0 <= i
{
    if i + needle.len() > h.len() {
        None
    } else if spec_match_at(h, needle, i) {
        Some(i)
    } else {
        spec_find_from(h, needle, i + 1)
    }
}

/// The position of the first occurrence of `needle` in `h`.
pub open spec fn spec_find(h: Seq<u8>, needle: Seq<u8>) -> Option<int> {
    spec_find_from(h, needle, 0)
}

/// Whether the bytes of `h` starting at `i` begin with `needle`.
fn match_at(h: &[u8], needle: &[u8], i: usize) -> (r: bool)
    requires
        i + needle@.len() <= h@.len(),
    ensures
        r == spec_match_at(h@, needle@, i as int),
{
    let h_len: usize = h.len();
    let mut k: usize = 0;
    let mut ok = true;
    while k < needle.len()
        invariant
            h_len == h@.len(),
            i + needle@.len() <= h@.len(),
            k <= needle@.len(),
            ok ==> forall|j: int| 0 <= j < k ==> h@[i + j] == needle@[j],
            !ok ==> !spec_match_at(h@, needle@, i as int),
        decreases needle@.len() - k,
    {
        if h[i + k] != needle[k] {
            ok = false;
        }
        k = k + 1;
    }
    ok
}

/// Find the first occurrence of `needle` in `h`.
pub fn find_subslice(h: &[u8], needle: &[u8]) -> (r: Option<usize>)
    ensures
        match r {
            Some(i) => spec_find(h@, needle@) == Some(i as int),
            None => spec_find(h@, needle@) is None,
        },
{
    if needle.len() > h.len() {
        return None;
    }
    let mut i: usize = 0;
    while i <= h.len() - needle.len()
        invariant
            needle@.len() <= h@.len(),
            i <= h@.len() - needle@.len() + 1,
            spec_find(h@, needle@) == spec_find_from(h@, needle@, i as int),
        decreases h@.len() - i,
    {
        if match_at(h, needle, i) {
            return Some(i);
        }
        i = i + 1;
    }
    None
}

/// Whether `b` is ASCII whitespace (space, tab, line feed, carriage return).
pub open spec fn spec_is_ws(b: u8) -> bool {
    b == 32 || b == 9 || b == 10 || b == 13
}

/// `s` without its leading whitespace.
pub open spec fn spec_trim_start(s: Seq<u8>) -> Seq<u8>
    decreases s.len(),
{
    if s.len() > 0 && spec_is_ws(s[0]) {
        spec_trim_start(s.drop_first())
    } else {
        s
    }
}

/// `s` without its trailing whitespace.
pub open spec fn spec_trim_end(s: Seq<u8>) -> Seq<u8>
    decreases s.len(),
{
    if s.len() > 0 && spec_is_ws(s.last()) {
        spec_trim_end(s.drop_last())
    } else {
        s
    }
}

/// `s` without leading and trailing whitespace.
pub open spec fn spec_trim(s: Seq<u8>) -> Seq<u8> {
    spec_trim_end(spec_trim_start(s))
}

/// Whether `b` is ASCII whitespace.
fn is_ws_byte(b: u8) -> (r: bool)
    ensures
        r == spec_is_ws(b),
{
    b == 32 || b == 9 || b == 10 || b == 13
}

/// Copy `s` without its leading and trailing ASCII whitespace.
pub fn trim_bytes(s: &[u8]) -> (r: Vec<u8>)
    ensures
        r@ == spec_trim(s@),
{
    proof {
        assert(s@.skip(0) =~= s@);
    }
    let mut start: usize = 0;
    while start < s.len() && is_ws_byte(s[start])
        invariant
            start <= s@.len(),
            spec_trim_start(s@) == spec_trim_start(s@.skip(start as int)),
        decreases s@.len() - start,
    {
        proof {
            assert(s@.skip(start as int).drop_first() =~= s@.skip(start as int + 1));
        }
        start = start + 1;
    }
    proof {
        assert(spec_trim_start(s@) =~= s@.subrange(start as int, s@.len() as int));
    }
    let mut end: usize = s.len();
    while end > start && is_ws_byte(s[end - 1])
        invariant
            start <= end <= s@.len(),
            spec_trim_end(s@.subrange(start as int, s@.len() as int)) == spec_trim_end(
                s@.subrange(start as int, end as int),
            ),
        decreases end,
    {
        proof {
            assert(s@.subrange(start as int, end as int).drop_last() =~= s@.subrange(
                start as int,
                end as int - 1,
            ));
        }
        end = end - 1;
    }
    let part = vstd::slice::slice_subrange(s, start, end);
    let out = vstd::slice::slice_to_vec(part);
    out
}

} // verus!
