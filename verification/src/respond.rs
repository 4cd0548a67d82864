//! Serialization of success payloads into response bodies.
//!
//! A hash response is the object `{"hash":"..."}` with the digest string
//! escaped as a JSON string; a verify response is `{"result":true}` or
//! `{"result":false}`. Both are total functions of the payload.
use vstd::prelude::*;

use crate::text;
use crate::util::push_all;

verus! {

/// The lower-case hexadecimal digit of a value below 16.
pub open spec fn spec_hex_digit(n: u8) -> u8
    recommends
        n < 16,
{
    if n < 10 {
        (48 + n) as u8
    } else {
        (87 + n) as u8
    }
}

/// How one byte appears inside a JSON string: quote and backslash get a
/// two-character escape, the named control characters get their short
/// escapes, any other control character a `\u00..` escape, and every other
/// byte stands for itself.
pub open spec fn spec_escape_byte(b: u8) -> Seq<u8> {
    if b == 34 {
        seq![92u8, 34u8]
    } else if b == 92 {
        seq![92u8, 92u8]
    } else if b == 8 {
        seq![92u8, 98u8]
    } else if b == 9 {
        seq![92u8, 116u8]
    } else if b == 10 {
        seq![92u8, 110u8]
    } else if b == 12 {
        seq![92u8, 102u8]
    } else if b == 13 {
        seq![92u8, 114u8]
    } else if b < 32 {
        seq![92u8, 117u8, 48u8, 48u8, spec_hex_digit(b / 16), spec_hex_digit(b % 16)]
    } else {
        seq![b]
    }
}

/// The JSON escaping of a whole byte string.
pub open spec fn spec_escape(s: Seq<u8>) -> Seq<u8>
    decreases s.len(),
{
    if s.len() == 0 {
        Seq::empty()
    } else {
        spec_escape(s.drop_last()) + spec_escape_byte(s.last())
    }
}

/// The body of a successful hash response for digest `h`.
pub open spec fn spec_hash_body(h: Seq<u8>) -> Seq<u8> {
    text::hash_body_open() + spec_escape(h) + text::hash_body_close()
}

/// The body of a successful verify response for result `b`.
pub open spec fn spec_verify_body(b: bool) -> Seq<u8> {
    if b {
        text::verify_body_true()
    } else {
        text::verify_body_false()
    }
}

/// Appends the JSON escaping of one byte.
fn push_escape_byte(out: &mut Vec<u8>, b: u8)
    ensures
        final(out)@ == old(out)@ + spec_escape_byte(b),
{
    if b == 34 {
        out.push(92);
        out.push(34);
        proof {
            assert(out@ =~= old(out)@ + spec_escape_byte(b));
        }
    } else if b == 92 {
        out.push(92);
        out.push(92);
        proof {
            assert(out@ =~= old(out)@ + spec_escape_byte(b));
        }
    } else if b == 8 {
        out.push(92);
        out.push(98);
        proof {
            assert(out@ =~= old(out)@ + spec_escape_byte(b));
        }
    } else if b == 9 {
        out.push(92);
        out.push(116);
        proof {
            assert(out@ =~= old(out)@ + spec_escape_byte(b));
        }
    } else if b == 10 {
        out.push(92);
        out.push(110);
        proof {
            assert(out@ =~= old(out)@ + spec_escape_byte(b));
        }
    } else if b == 12 {
        out.push(92);
        out.push(102);
        proof {
            assert(out@ =~= old(out)@ + spec_escape_byte(b));
        }
    } else if b == 13 {
        out.push(92);
        out.push(114);
        proof {
            assert(out@ =~= old(out)@ + spec_escape_byte(b));
        }
    } else if b < 32 {
        out.push(92);
        out.push(117);
        out.push(48);
        out.push(48);
        let hi: u8 = b / 16;
        let lo: u8 = b % 16;
        out.push(if hi < 10 { 48 + hi } else { 87 + hi });
        out.push(if lo < 10 { 48 + lo } else { 87 + lo });
        proof {
            assert(out@ =~= old(out)@ + spec_escape_byte(b));
        }
    } else {
        out.push(b);
        proof {
            assert(out@ =~= old(out)@ + spec_escape_byte(b));
        }
    }
}

/// Appends the JSON escaping of a whole byte string.
fn push_escaped(out: &mut Vec<u8>, s: &[u8])
    ensures
        final(out)@ == old(out)@ + spec_escape(s@),
{
    let n: usize = s.len();
    let mut i: usize = 0;
    while i < n
        invariant
            n == s@.len(),
            i <= n,
            out@ == old(out)@ + spec_escape(s@.subrange(0, i as int)),
        decreases n - i,
    {
        push_escape_byte(out, s[i]);
        proof {
            assert(s@.subrange(0, i + 1 as int).drop_last() =~= s@.subrange(0, i as int));
            assert(s@.subrange(0, i + 1 as int).last() == s@[i as int]);
            assert(out@ =~= old(out)@ + spec_escape(s@.subrange(0, i + 1 as int)));
        }
        i += 1;
    }
    proof {
        assert(s@.subrange(0, n as int) =~= s@);
    }
}

/// Builds the hash response body `{"hash":"<digest, escaped>"}`.
pub fn hash_response_body(h: &[u8]) -> (r: Vec<u8>)
    ensures
        r@ == spec_hash_body(h@),
{
    let mut out: Vec<u8> = text::hash_body_open_vec();
    push_escaped(&mut out, h);
    push_all(&mut out, text::hash_body_close_vec().as_slice());
    proof {
        assert(out@ =~= spec_hash_body(h@));
    }
    out
}

/// Builds the verify response body `{"result":true}` or `{"result":false}`.
pub fn verify_response_body(b: bool) -> (r: Vec<u8>)
    ensures
        r@ == spec_verify_body(b),
{
    if b {
        text::verify_body_true_vec()
    } else {
        text::verify_body_false_vec()
    }
}

} // verus!
