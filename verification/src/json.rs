//! A verified parser for the JSON subset the request bodies use.
//!
//! The grammar is standard JSON: objects, strings with escapes (including
//! `\uXXXX` and surrogate pairs), numbers, `true`/`false`/`null`, and arrays;
//! strings must decode to valid UTF-8 and nesting is depth-limited. Each
//! executable function returns exactly what its specification-level parse
//! function describes.
use vstd::prelude::*;

use crate::primitives::utf8_check;
use crate::primitives::utf8_ok;

verus! {

/// JSON insignificant whitespace.
pub open spec fn is_ws(b: u8) -> bool {
    b == 32 || b == 9 || b == 10 || b == 13
}

/// The first index at or after `i` that does not hold whitespace.
pub open spec fn sp_skip_ws(s: Seq<u8>, i: int) -> int
    decreases s.len() - i,
{
    if 0 <= i < s.len() && is_ws(s[i]) {
        sp_skip_ws(s, i + 1)
    } else {
        i
    }
}

/// Advances past whitespace.
pub fn skip_ws(s: &[u8], i: usize) -> (j: usize)
    requires
        i <= s@.len(),
    ensures
        j == sp_skip_ws(s@, i as int),
        i <= j <= s@.len(),
{
    let n: usize = s.len();
    let mut k: usize = i;
    while k < n && (s[k] == 32 || s[k] == 9 || s[k] == 10 || s[k] == 13)
        invariant
            i <= k <= n,
            n == s@.len(),
            sp_skip_ws(s@, i as int) == sp_skip_ws(s@, k as int),
        decreases n - k,
    {
        k += 1;
    }
    proof {
        assert(sp_skip_ws(s@, k as int) == k as int);
    }
    k
}

/// Whether a byte is an ASCII hexadecimal digit.
pub open spec fn is_hex(b: u8) -> bool {
    (48 <= b <= 57) || (97 <= b <= 102) || (65 <= b <= 70)
}

/// The value of an ASCII hexadecimal digit.
pub open spec fn hex_val(b: u8) -> int
    recommends
        is_hex(b),
{
    if 48 <= b <= 57 {
        b - 48
    } else if 97 <= b <= 102 {
        b - 87
    } else {
        b - 55
    }
}

/// Whether four hexadecimal digits stand at `i`.
pub open spec fn hex4_ok(s: Seq<u8>, i: int) -> bool {
    &&& 0 <= i
    &&& i + 4 <= s.len()
    &&& is_hex(s[i])
    &&& is_hex(s[i + 1])
    &&& is_hex(s[i + 2])
    &&& is_hex(s[i + 3])
}

/// The value of the four hexadecimal digits at `i`.
pub open spec fn hex4_val(s: Seq<u8>, i: int) -> int {
    hex_val(s[i]) * 4096 + hex_val(s[i + 1]) * 256 + hex_val(s[i + 2]) * 16 + hex_val(s[i + 3])
}

/// The UTF-8 encoding of a Unicode code point.
pub open spec fn utf8_enc(cp: int) -> Seq<u8>
    recommends
        0 <= cp < 0x110000,
{
    if cp < 0x80 {
        seq![cp as u8]
    } else if cp < 0x800 {
        seq![(192 + cp / 64) as u8, (128 + cp % 64) as u8]
    } else if cp < 0x10000 {
        seq![(224 + cp / 4096) as u8, (128 + (cp / 64) % 64) as u8, (128 + cp % 64) as u8]
    } else {
        seq![
            (240 + cp / 262144) as u8,
            (128 + (cp / 4096) % 64) as u8,
            (128 + (cp / 64) % 64) as u8,
            (128 + cp % 64) as u8,
        ]
    }
}

/// The unescaped content and end position of a JSON string whose opening
/// quote has already been consumed; `None` on any malformed escape, lone
/// surrogate, unescaped control character, or missing closing quote.
pub open spec fn sp_string_tail(s: Seq<u8>, i: int) -> Option<(Seq<u8>, int)>
    decreases s.len() - i,
{
    if i < 0 || i >= s.len() {
        None
    } else if s[i] == 34 {
        Some((Seq::empty(), i + 1))
    } else if s[i] == 92 {
        if i + 2 > s.len() {
            None
        } else {
            let e = s[i + 1];
            if e == 34 || e == 92 || e == 47 {
                match sp_string_tail(s, i + 2) {
                    Some((t, j)) => Some((seq![e] + t, j)),
                    None => None,
                }
            } else if e == 98 {
                match sp_string_tail(s, i + 2) {
                    Some((t, j)) => Some((seq![8u8] + t, j)),
                    None => None,
                }
            } else if e == 116 {
                match sp_string_tail(s, i + 2) {
                    Some((t, j)) => Some((seq![9u8] + t, j)),
                    None => None,
                }
            } else if e == 110 {
                match sp_string_tail(s, i + 2) {
                    Some((t, j)) => Some((seq![10u8] + t, j)),
                    None => None,
                }
            } else if e == 102 {
                match sp_string_tail(s, i + 2) {
                    Some((t, j)) => Some((seq![12u8] + t, j)),
                    None => None,
                }
            } else if e == 114 {
                match sp_string_tail(s, i + 2) {
                    Some((t, j)) => Some((seq![13u8] + t, j)),
                    None => None,
                }
            } else if e == 117 {
                if !hex4_ok(s, i + 2) {
                    None
                } else {
                    let cp = hex4_val(s, i + 2);
                    if 0xD800 <= cp < 0xDC00 {
                        // a high surrogate must be followed by an escaped low
                        // surrogate; the pair encodes one supplementary code
                        // point
                        if i + 12 <= s.len() && s[i + 6] == 92 && s[i + 7] == 117 && hex4_ok(
                            s,
                            i + 8,
                        ) && 0xDC00 <= hex4_val(s, i + 8) < 0xE000 {
                            let scalar = 0x10000 + (cp - 0xD800) * 0x400 + (hex4_val(s, i + 8)
                                - 0xDC00);
                            match sp_string_tail(s, i + 12) {
                                Some((t, j)) => Some((utf8_enc(scalar) + t, j)),
                                None => None,
                            }
                        } else {
                            None
                        }
                    } else if 0xDC00 <= cp < 0xE000 {
                        None
                    } else {
                        match sp_string_tail(s, i + 6) {
                            Some((t, j)) => Some((utf8_enc(cp) + t, j)),
                            None => None,
                        }
                    }
                }
            } else {
                None
            }
        }
    } else if s[i] < 32 {
        None
    } else {
        match sp_string_tail(s, i + 1) {
            Some((t, j)) => Some((seq![s[i]] + t, j)),
            None => None,
        }
    }
}

/// The content and end position of a JSON string starting (with its opening
/// quote) at `i`; the content must be valid UTF-8.
#[verifier::opaque]
pub open spec fn sp_string(s: Seq<u8>, i: int) -> Option<(Seq<u8>, int)> {
    if 0 <= i < s.len() && s[i] == 34 {
        match sp_string_tail(s, i + 1) {
            Some((t, j)) => if utf8_ok(t) {
                Some((t, j))
            } else {
                None
            },
            None => None,
        }
    } else {
        None
    }
}

/// Appends the UTF-8 encoding of a code point.
fn push_utf8(out: &mut Vec<u8>, cp: u32)
    requires
        cp < 0x110000,
    ensures
        final(out)@ == old(out)@ + utf8_enc(cp as int),
{
    if cp < 0x80 {
        out.push(cp as u8);
    } else if cp < 0x800 {
        out.push((192 + cp / 64) as u8);
        out.push((128 + cp % 64) as u8);
    } else if cp < 0x10000 {
        out.push((224 + cp / 4096) as u8);
        out.push((128 + (cp / 64) % 64) as u8);
        out.push((128 + cp % 64) as u8);
    } else {
        out.push((240 + cp / 262144) as u8);
        out.push((128 + (cp / 4096) % 64) as u8);
        out.push((128 + (cp / 64) % 64) as u8);
        out.push((128 + cp % 64) as u8);
    }
    proof {
        assert(out@ =~= old(out)@ + utf8_enc(cp as int));
    }
}

/// The value of one hexadecimal digit, if the byte is one.
fn hex_nibble(b: u8) -> (r: Option<u8>)
    ensures
        (r is Some) <==> is_hex(b),
        r is Some ==> r->0 == hex_val(b) && r->0 < 16,
{
    if 48 <= b && b <= 57 {
        Some(b - 48)
    } else if 97 <= b && b <= 102 {
        Some(b - 87)
    } else if 65 <= b && b <= 70 {
        Some(b - 55)
    } else {
        None
    }
}

/// Reads four hexadecimal digits at `i`.
fn parse_hex4(s: &[u8], i: usize) -> (r: Option<u32>)
    requires
        i <= s@.len(),
    ensures
        (r is Some) <==> hex4_ok(s@, i as int),
        r is Some ==> r->0 == hex4_val(s@, i as int) && r->0 < 0x10000,
{
    if s.len() - i < 4 {
        return None;
    }
    let n0 = hex_nibble(s[i]);
    let n1 = hex_nibble(s[i + 1]);
    let n2 = hex_nibble(s[i + 2]);
    let n3 = hex_nibble(s[i + 3]);
    match (n0, n1, n2, n3) {
        (Some(a), Some(b), Some(c), Some(d)) => Some(
            (a as u32) * 4096 + (b as u32) * 256 + (c as u32) * 16 + (d as u32),
        ),
        _ => None,
    }
}

/// Parses a JSON string starting at `i`, returning its unescaped UTF-8
/// content and the position after the closing quote.
pub fn parse_string(s: &[u8], i: usize) -> (r: Option<(Vec<u8>, usize)>)
    requires
        i <= s@.len(),
    ensures
        match r {
            Some(v) => sp_string(s@, i as int) == Some((v.0@, v.1 as int)) && i < v.1 <= s@.len(),
            None => sp_string(s@, i as int) is None,
        },
{
    proof {
        reveal(sp_string);
    }
    let n: usize = s.len();
    if i >= n || s[i] != 34 {
        return None;
    }
    let mut out: Vec<u8> = Vec::new();
    let mut k: usize = i + 1;
    loop
        invariant
            i + 1 <= k <= n,
            n == s@.len(),
            i < s@.len() && s@[i as int] == 34,
            match sp_string_tail(s@, k as int) {
                Some(t) => sp_string_tail(s@, i + 1 as int) == Some((out@ + t.0, t.1)),
                None => sp_string_tail(s@, i + 1 as int) is None,
            },
        decreases n - k,
    {
        proof {
            reveal(sp_string);
        }
        if k >= n {
            return None;
        }
        let b = s[k];
        if b == 34 {
            proof {
                assert(sp_string_tail(s@, k as int) == Some((Seq::<u8>::empty(), k + 1 as int)));
                assert(out@ + Seq::<u8>::empty() =~= out@);
                assert(sp_string_tail(s@, i + 1 as int) == Some((out@, (k + 1) as int)));
            }
            if !utf8_check(out.as_slice()) {
                proof {
                    assert(sp_string(s@, i as int) is None);
                }
                return None;
            }
            proof {
                assert(sp_string(s@, i as int) == Some((out@, (k + 1) as int)));
            }
            return Some((out, k + 1));
        } else if b == 92 {
            if n - k < 2 {
                return None;
            }
            let e = s[k + 1];
            if e == 34 || e == 92 || e == 47 || e == 98 || e == 116 || e == 110 || e == 102 || e
                == 114 {
                let decoded: u8 = if e == 98 {
                    8
                } else if e == 116 {
                    9
                } else if e == 110 {
                    10
                } else if e == 102 {
                    12
                } else if e == 114 {
                    13
                } else {
                    e
                };
                let ghost prev = out@;
                out.push(decoded);
                proof {
                    let cont = sp_string_tail(s@, k + 2 as int);
                    if cont is Some {
                        assert(prev + (seq![decoded] + cont->Some_0.0) =~= out@ + cont->Some_0.0);
                    }
                }
                k = k + 2;
            } else if e == 117 {
                let cp = match parse_hex4(s, k + 2) {
                    Some(v) => v,
                    None => return None,
                };
                if 0xD800 <= cp && cp < 0xDC00 {
                    if !(n - k >= 12 && s[k + 6] == 92 && s[k + 7] == 117) {
                        return None;
                    }
                    let c2 = match parse_hex4(s, k + 8) {
                        Some(v) => v,
                        None => return None,
                    };
                    if !(0xDC00 <= c2 && c2 < 0xE000) {
                        return None;
                    }
                    let scalar: u32 = 0x10000 + (cp - 0xD800) * 1024 + (c2 - 0xDC00);
                    let ghost prev = out@;
                    push_utf8(&mut out, scalar);
                    proof {
                        let cont = sp_string_tail(s@, k + 12 as int);
                        if cont is Some {
                            assert(prev + (utf8_enc(scalar as int) + cont->Some_0.0) =~= out@
                                + cont->Some_0.0);
                        }
                    }
                    k = k + 12;
                } else if 0xDC00 <= cp && cp < 0xE000 {
                    return None;
                } else {
                    let ghost prev = out@;
                    push_utf8(&mut out, cp);
                    proof {
                        let cont = sp_string_tail(s@, k + 6 as int);
                        if cont is Some {
                            assert(prev + (utf8_enc(cp as int) + cont->Some_0.0) =~= out@
                                + cont->Some_0.0);
                        }
                    }
                    k = k + 6;
                }
            } else {
                return None;
            }
        } else if b < 32 {
            return None;
        } else {
            let ghost prev = out@;
            out.push(b);
            proof {
                let cont = sp_string_tail(s@, k + 1 as int);
                if cont is Some {
                    assert(prev + (seq![b] + cont->Some_0.0) =~= out@ + cont->Some_0.0);
                }
            }
            k = k + 1;
        }
    }
}

/// The first index at or after `i` that does not hold an ASCII digit.
pub open spec fn sp_digits_end(s: Seq<u8>, i: int) -> int
    decreases s.len() - i,
{
    if 0 <= i < s.len() && 48 <= s[i] <= 57 {
        sp_digits_end(s, i + 1)
    } else {
        i
    }
}

/// The decimal value of the digit run `s[i..j]`.
pub open spec fn sp_digits_val(s: Seq<u8>, i: int, j: int) -> int
    decreases j - i,
{
    if i >= j {
        0
    } else {
        sp_digits_val(s, i, j - 1) * 10 + (s[j - 1] - 48)
    }
}

/// A JSON number that is a `u32`: a plain digit run with no sign, leading
/// zero, fraction or exponent, whose value fits; anything else is rejected
/// (a valid JSON number of another shape fails the field's type instead).
pub open spec fn sp_u32(s: Seq<u8>, i: int) -> Option<(u32, int)> {
    let j = sp_digits_end(s, i);
    if j == i {
        None
    } else if s[i] == 48 && j > i + 1 {
        None
    } else if j < s.len() && (s[j] == 46 || s[j] == 101 || s[j] == 69) {
        None
    } else if sp_digits_val(s, i, j) > 0xFFFFFFFF {
        None
    } else {
        Some((sp_digits_val(s, i, j) as u32, j))
    }
}

/// Advances past a run of ASCII digits.
fn digits_end(s: &[u8], i: usize) -> (j: usize)
    requires
        i <= s@.len(),
    ensures
        j == sp_digits_end(s@, i as int),
        i <= j <= s@.len(),
{
    let n: usize = s.len();
    let mut k: usize = i;
    while k < n && 48 <= s[k] && s[k] <= 57
        invariant
            i <= k <= n,
            n == s@.len(),
            sp_digits_end(s@, i as int) == sp_digits_end(s@, k as int),
        decreases n - k,
    {
        k += 1;
    }
    proof {
        assert(sp_digits_end(s@, k as int) == k as int);
    }
    k
}

/// Parses an unsigned 32-bit decimal number starting at `i`.
pub fn parse_u32(s: &[u8], i: usize) -> (r: Option<(u32, usize)>)
    requires
        i <= s@.len(),
    ensures
        match r {
            Some(v) => sp_u32(s@, i as int) == Some((v.0, v.1 as int)) && i < v.1 <= s@.len(),
            None => sp_u32(s@, i as int) is None,
        },
{
    let n: usize = s.len();
    let mut k: usize = i;
    let mut acc: u64 = 0;
    while k < n && 48 <= s[k] && s[k] <= 57
        invariant
            i <= k <= n,
            n == s@.len(),
            sp_digits_end(s@, i as int) == sp_digits_end(s@, k as int),
            acc <= 0x100000000,
            sp_digits_val(s@, i as int, k as int) <= 0xFFFFFFFF ==> acc == sp_digits_val(
                s@,
                i as int,
                k as int,
            ),
            sp_digits_val(s@, i as int, k as int) > 0xFFFFFFFF ==> acc == 0x100000000,
        decreases n - k,
    {
        let d: u64 = (s[k] - 48) as u64;
        let t: u64 = acc * 10 + d;
        proof {
            assert(sp_digits_val(s@, i as int, k + 1 as int) == sp_digits_val(
                s@,
                i as int,
                k as int,
            ) * 10 + (s@[k as int] - 48));
        }
        acc = if t > 0xFFFFFFFF {
            0x100000000
        } else {
            t
        };
        k += 1;
    }
    proof {
        assert(sp_digits_end(s@, k as int) == k as int);
    }
    if k == i {
        return None;
    }
    if s[i] == 48 && k > i + 1 {
        return None;
    }
    if k < n && (s[k] == 46 || s[k] == 101 || s[k] == 69) {
        return None;
    }
    if acc > 0xFFFFFFFF {
        return None;
    }
    Some((acc as u32, k))
}

/// The end of the integer part of a JSON number (at least one digit, no
/// leading zero).
pub open spec fn sp_skip_int(s: Seq<u8>, i: int) -> Option<int> {
    let j = sp_digits_end(s, i);
    if j == i {
        None
    } else if s[i] == 48 && j > i + 1 {
        None
    } else {
        Some(j)
    }
}

/// The end of the optional fraction part of a JSON number.
pub open spec fn sp_skip_frac(s: Seq<u8>, j: int) -> Option<int> {
    if 0 <= j < s.len() && s[j] == 46 {
        let jf = sp_digits_end(s, j + 1);
        if jf == j + 1 {
            None
        } else {
            Some(jf)
        }
    } else {
        Some(j)
    }
}

/// The end of the optional exponent part of a JSON number.
pub open spec fn sp_skip_exp(s: Seq<u8>, j: int) -> Option<int> {
    if 0 <= j < s.len() && (s[j] == 101 || s[j] == 69) {
        let j1 = if j + 1 < s.len() && (s[j + 1] == 43 || s[j + 1] == 45) {
            j + 2
        } else {
            j + 1
        };
        let je = sp_digits_end(s, j1);
        if je == j1 {
            None
        } else {
            Some(je)
        }
    } else {
        Some(j)
    }
}

/// The end of a syntactically valid JSON number starting at `i`.
pub open spec fn sp_skip_number(s: Seq<u8>, i: int) -> Option<int> {
    let i1 = if 0 <= i < s.len() && s[i] == 45 {
        i + 1
    } else {
        i
    };
    match sp_skip_int(s, i1) {
        None => None,
        Some(j) => match sp_skip_frac(s, j) {
            None => None,
            Some(j2) => sp_skip_exp(s, j2),
        },
    }
}

/// Advances past a syntactically valid JSON number.
fn skip_number(s: &[u8], i: usize) -> (r: Option<usize>)
    requires
        i < s@.len(),
    ensures
        match r {
            Some(j) => sp_skip_number(s@, i as int) == Some(j as int) && i < j <= s@.len(),
            None => sp_skip_number(s@, i as int) is None,
        },
{
    let n: usize = s.len();
    let i1: usize = if s[i] == 45 {
        i + 1
    } else {
        i
    };
    let j = digits_end(s, i1);
    if j == i1 {
        return None;
    }
    if s[i1] == 48 && j > i1 + 1 {
        return None;
    }
    let j2: usize = if j < n && s[j] == 46 {
        let jf = digits_end(s, j + 1);
        if jf == j + 1 {
            return None;
        }
        jf
    } else {
        j
    };
    let j3: usize = if j2 < n && (s[j2] == 101 || s[j2] == 69) {
        let j1: usize = if j2 + 1 < n && (s[j2 + 1] == 43 || s[j2 + 1] == 45) {
            j2 + 2
        } else {
            j2 + 1
        };
        let je = digits_end(s, j1);
        if je == j1 {
            return None;
        }
        je
    } else {
        j2
    };
    Some(j3)
}

/// The end position of one JSON value starting at `i` (no leading
/// whitespace), with nesting of objects and arrays limited to `depth`.
pub open spec fn sp_skip_value(s: Seq<u8>, i: int, depth: int) -> Option<int>
    decreases s.len() - i, 0int,
{
    if i < 0 || i >= s.len() {
        None
    } else if s[i] == 34 {
        match sp_string(s, i) {
            Some((t, j)) => Some(j),
            None => None,
        }
    } else if s[i] == 123 {
        if depth <= 0 {
            None
        } else {
            let k = sp_skip_ws(s, i + 1);
            if k < s.len() && s[k] == 125 {
                Some(k + 1)
            } else {
                sp_skip_members(s, i + 1, depth - 1)
            }
        }
    } else if s[i] == 91 {
        if depth <= 0 {
            None
        } else {
            let k = sp_skip_ws(s, i + 1);
            if k < s.len() && s[k] == 93 {
                Some(k + 1)
            } else {
                sp_skip_elements(s, i + 1, depth - 1)
            }
        }
    } else if s[i] == 116 {
        if i + 4 <= s.len() && s[i + 1] == 114 && s[i + 2] == 117 && s[i + 3] == 101 {
            Some(i + 4)
        } else {
            None
        }
    } else if s[i] == 102 {
        if i + 5 <= s.len() && s[i + 1] == 97 && s[i + 2] == 108 && s[i + 3] == 115 && s[i + 4]
            == 101 {
            Some(i + 5)
        } else {
            None
        }
    } else if s[i] == 110 {
        if i + 4 <= s.len() && s[i + 1] == 117 && s[i + 2] == 108 && s[i + 3] == 108 {
            Some(i + 4)
        } else {
            None
        }
    } else if s[i] == 45 || (48 <= s[i] <= 57) {
        sp_skip_number(s, i)
    } else {
        None
    }
}

/// The end position after the members of an object, entered just after the
/// `{` or a `,`: whitespace, a key, `:`, a value, then `,` or `}`.
pub open spec fn sp_skip_members(s: Seq<u8>, i: int, depth: int) -> Option<int>
    decreases s.len() - i, 1int,
{
    let k = sp_skip_ws(s, i);
    match sp_string(s, k) {
        None => None,
        Some((key, j)) => {
            let k2 = sp_skip_ws(s, j);
            if !(k2 < s.len() && s[k2] == 58) {
                None
            } else {
                let k3 = sp_skip_ws(s, k2 + 1);
                if k3 <= i || k3 > s.len() {
                    None
                } else {
                    match sp_skip_value(s, k3, depth) {
                        None => None,
                        Some(j2) => {
                            let k4 = sp_skip_ws(s, j2);
                            if k4 < s.len() && s[k4] == 44 {
                                if k4 + 1 <= i {
                                    None
                                } else {
                                    sp_skip_members(s, k4 + 1, depth)
                                }
                            } else if k4 < s.len() && s[k4] == 125 {
                                Some(k4 + 1)
                            } else {
                                None
                            }
                        },
                    }
                }
            }
        },
    }
}

/// The end position after the elements of an array, entered just after the
/// `[` or a `,`: whitespace, a value, then `,` or `]`.
pub open spec fn sp_skip_elements(s: Seq<u8>, i: int, depth: int) -> Option<int>
    decreases s.len() - i, 1int,
{
    let k = sp_skip_ws(s, i);
    if k < i || k > s.len() {
        None
    } else {
        match sp_skip_value(s, k, depth) {
            None => None,
            Some(j2) => {
                let k4 = sp_skip_ws(s, j2);
                if k4 < s.len() && s[k4] == 44 {
                    if k4 + 1 <= i {
                        None
                    } else {
                        sp_skip_elements(s, k4 + 1, depth)
                    }
                } else if k4 < s.len() && s[k4] == 93 {
                    Some(k4 + 1)
                } else {
                    None
                }
            },
        }
    }
}

/// Advances past one JSON value, validating it (strings must be well formed
/// UTF-8, nesting is depth-limited); used for ignored members.
pub fn skip_value(s: &[u8], i: usize, depth: u32) -> (r: Option<usize>)
    requires
        i <= s@.len(),
    ensures
        match r {
            Some(j) => sp_skip_value(s@, i as int, depth as int) == Some(j as int) && i < j
                <= s@.len(),
            None => sp_skip_value(s@, i as int, depth as int) is None,
        },
    decreases s@.len() - i,
{
    let n: usize = s.len();
    if i >= n {
        return None;
    }
    let b = s[i];
    if b == 34 {
        match parse_string(s, i) {
            Some(v) => Some(v.1),
            None => None,
        }
    } else if b == 123 {
        if depth == 0 {
            return None;
        }
        let k = skip_ws(s, i + 1);
        if k < n && s[k] == 125 {
            return Some(k + 1);
        }
        let mut cur: usize = i + 1;
        loop
            invariant
                i < cur <= n,
                n == s@.len(),
                i < n && s@[i as int] == 123,
                depth >= 1,
                sp_skip_value(s@, i as int, depth as int) == sp_skip_members(
                    s@,
                    cur as int,
                    (depth - 1) as int,
                ),
            decreases n - cur,
        {
            let k = skip_ws(s, cur);
            let (key, j) = match parse_string(s, k) {
                Some(v) => v,
                None => return None,
            };
            let k2 = skip_ws(s, j);
            if !(k2 < n && s[k2] == 58) {
                return None;
            }
            let k3 = skip_ws(s, k2 + 1);
            let j2 = match skip_value(s, k3, depth - 1) {
                Some(v) => v,
                None => return None,
            };
            let k4 = skip_ws(s, j2);
            if k4 < n && s[k4] == 44 {
                cur = k4 + 1;
            } else if k4 < n && s[k4] == 125 {
                return Some(k4 + 1);
            } else {
                return None;
            }
        }
    } else if b == 91 {
        if depth == 0 {
            return None;
        }
        let k = skip_ws(s, i + 1);
        if k < n && s[k] == 93 {
            return Some(k + 1);
        }
        let mut cur: usize = i + 1;
        loop
            invariant
                i < cur <= n,
                n == s@.len(),
                i < n && s@[i as int] == 91,
                depth >= 1,
                sp_skip_value(s@, i as int, depth as int) == sp_skip_elements(
                    s@,
                    cur as int,
                    (depth - 1) as int,
                ),
            decreases n - cur,
        {
            let k = skip_ws(s, cur);
            let j2 = match skip_value(s, k, depth - 1) {
                Some(v) => v,
                None => return None,
            };
            let k4 = skip_ws(s, j2);
            if k4 < n && s[k4] == 44 {
                cur = k4 + 1;
            } else if k4 < n && s[k4] == 93 {
                return Some(k4 + 1);
            } else {
                return None;
            }
        }
    } else if b == 116 {
        if n - i >= 4 && s[i + 1] == 114 && s[i + 2] == 117 && s[i + 3] == 101 {
            Some(i + 4)
        } else {
            None
        }
    } else if b == 102 {
        if n - i >= 5 && s[i + 1] == 97 && s[i + 2] == 108 && s[i + 3] == 115 && s[i + 4] == 101 {
            Some(i + 5)
        } else {
            None
        }
    } else if b == 110 {
        if n - i >= 4 && s[i + 1] == 117 && s[i + 2] == 108 && s[i + 3] == 108 {
            Some(i + 4)
        } else {
            None
        }
    } else if b == 45 || (48 <= b && b <= 57) {
        skip_number(s, i)
    } else {
        None
    }
}

} // verus!
