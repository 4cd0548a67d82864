//! Verified decoding of the three request body shapes.
//!
//! Each body is a JSON object; unknown members are skipped, duplicate
//! members are rejected, required members must be present, and nothing may
//! follow the object but whitespace. `options` may be `null`, which counts
//! as present-but-absent, exactly like an omitted member.
use vstd::prelude::*;

use crate::json;
use crate::json::sp_skip_value;
use crate::json::sp_skip_ws;
use crate::json::sp_string;
use crate::json::sp_u32;
use crate::text;
use crate::types::Argon2HashOptions;
use crate::types::BcryptHashOptions;
use crate::types::HashRequest;
use crate::types::VerifyRequest;
use crate::util::bytes_eq;

verus! {

// --- Argon2 options object ---------------------------------------------
/// The members of an Argon2 options object, entered after its `{` or a `,`,
/// carrying which of the three required fields were already seen.
#[verifier::opaque]
pub open spec fn sp_argon2_opts_members(
    s: Seq<u8>,
    i: int,
    t: Option<u32>,
    m: Option<u32>,
    p: Option<u32>,
) -> Option<(Argon2HashOptions, int)>
    decreases s.len() - i, 1int,
{
    let k = sp_skip_ws(s, i);
    match sp_string(s, k) {
        None => None,
        Some((key, j)) => {
            let k2 = sp_skip_ws(s, j);
            if !(k2 < s.len() && s[k2] == 58) {
                None
            } else {
                let k3 = sp_skip_ws(s, k2 + 1);
                if k3 <= i || k3 > s.len() {
                    None
                } else if key == text::key_time_cost() {
                    if t is Some {
                        None
                    } else {
                        match sp_u32(s, k3) {
                            None => None,
                            Some((v, j2)) => sp_argon2_opts_tail(s, i, j2, Some(v), m, p),
                        }
                    }
                } else if key == text::key_memory_cost() {
                    if m is Some {
                        None
                    } else {
                        match sp_u32(s, k3) {
                            None => None,
                            Some((v, j2)) => sp_argon2_opts_tail(s, i, j2, t, Some(v), p),
                        }
                    }
                } else if key == text::key_parallelism() {
                    if p is Some {
                        None
                    } else {
                        match sp_u32(s, k3) {
                            None => None,
                            Some((v, j2)) => sp_argon2_opts_tail(s, i, j2, t, m, Some(v)),
                        }
                    }
                } else {
                    match sp_skip_value(s, k3, 126) {
                        None => None,
                        Some(j2) => sp_argon2_opts_tail(s, i, j2, t, m, p),
                    }
                }
            }
        },
    }
}

/// After one member of an Argon2 options object: a `,` continues with the
/// next member, a `}` closes it, requiring all three fields.
#[verifier::opaque]
pub open spec fn sp_argon2_opts_tail(
    s: Seq<u8>,
    i: int,
    j2: int,
    t: Option<u32>,
    m: Option<u32>,
    p: Option<u32>,
) -> Option<(Argon2HashOptions, int)>
    decreases s.len() - i, 0int,
{
    if j2 <= i || j2 > s.len() {
        None
    } else {
        let k4 = sp_skip_ws(s, j2);
        if k4 < s.len() && s[k4] == 44 {
            if k4 + 1 <= i {
                None
            } else {
                sp_argon2_opts_members(s, k4 + 1, t, m, p)
            }
        } else if k4 < s.len() && s[k4] == 125 {
            match (t, m, p) {
                (Some(tv), Some(mv), Some(pv)) => Some(
                    (Argon2HashOptions { time_cost: tv, memory_cost: mv, parallelism: pv }, k4 + 1),
                ),
                _ => None,
            }
        } else {
            None
        }
    }
}

/// The value of an `options` member for Argon2: `null` (absent) or an object
/// holding exactly the three required fields.
#[verifier::opaque]
pub open spec fn sp_argon2_options_value(s: Seq<u8>, i: int) -> Option<(
    Option<Argon2HashOptions>,
    int,
)> {
    if 0 <= i && i + 4 <= s.len() && s[i] == 110 && s[i + 1] == 117 && s[i + 2] == 108 && s[i + 3]
        == 108 {
        Some((None, i + 4))
    } else if 0 <= i < s.len() && s[i] == 123 {
        match sp_argon2_opts_members(s, i + 1, None, None, None) {
            None => None,
            Some((o, e)) => Some((Some(o), e)),
        }
    } else {
        None
    }
}

/// Parses an Argon2 `options` value.
fn parse_argon2_options_value(s: &[u8], i: usize) -> (r: Option<(Option<Argon2HashOptions>, usize)>)
    requires
        i <= s@.len(),
    ensures
        match r {
            Some(v) => sp_argon2_options_value(s@, i as int) == Some((v.0, v.1 as int)) && i < v.1
                <= s@.len(),
            None => sp_argon2_options_value(s@, i as int) is None,
        },
{
    proof {
        reveal(sp_argon2_options_value);
    }
    let n: usize = s.len();
    if n - i >= 4 && s[i] == 110 && s[i + 1] == 117 && s[i + 2] == 108 && s[i + 3] == 108 {
        return Some((None, i + 4));
    }
    if !(i < n && s[i] == 123) {
        return None;
    }
    let mut cur: usize = i + 1;
    let mut t: Option<u32> = None;
    let mut m: Option<u32> = None;
    let mut p: Option<u32> = None;
    loop
        invariant
            i < cur <= n,
            n == s@.len(),
            i < n && s@[i as int] == 123,
            !(n - i >= 4 && s@[i as int] == 110),
            sp_argon2_options_value(s@, i as int) == (match sp_argon2_opts_members(
                s@,
                cur as int,
                t,
                m,
                p,
            ) {
                None => None::<(Option<Argon2HashOptions>, int)>,
                Some((o, e)) => Some((Some(o), e)),
            }),
        decreases n - cur,
    {
        proof {
            reveal(sp_argon2_options_value);
            reveal(sp_argon2_opts_members);
            reveal(sp_argon2_opts_tail);
        }
        let k = json::skip_ws(s, cur);
        let (key, j) = match json::parse_string(s, k) {
            Some(v) => v,
            None => return None,
        };
        let k2 = json::skip_ws(s, j);
        if !(k2 < n && s[k2] == 58) {
            return None;
        }
        let k3 = json::skip_ws(s, k2 + 1);
        let j2: usize;
        if bytes_eq(key.as_slice(), text::key_time_cost_vec().as_slice()) {
            if t.is_some() {
                return None;
            }
            match json::parse_u32(s, k3) {
                Some((v, e)) => {
                    t = Some(v);
                    j2 = e;
                },
                None => return None,
            }
        } else if bytes_eq(key.as_slice(), text::key_memory_cost_vec().as_slice()) {
            if m.is_some() {
                return None;
            }
            match json::parse_u32(s, k3) {
                Some((v, e)) => {
                    m = Some(v);
                    j2 = e;
                },
                None => return None,
            }
        } else if bytes_eq(key.as_slice(), text::key_parallelism_vec().as_slice()) {
            if p.is_some() {
                return None;
            }
            match json::parse_u32(s, k3) {
                Some((v, e)) => {
                    p = Some(v);
                    j2 = e;
                },
                None => return None,
            }
        } else {
            match json::skip_value(s, k3, 126) {
                Some(e) => {
                    j2 = e;
                },
                None => return None,
            }
        }
        let k4 = json::skip_ws(s, j2);
        if k4 < n && s[k4] == 44 {
            cur = k4 + 1;
        } else if k4 < n && s[k4] == 125 {
            match (t, m, p) {
                (Some(tv), Some(mv), Some(pv)) => {
                    return Some(
                        (
                            Some(
                                Argon2HashOptions {
                                    time_cost: tv,
                                    memory_cost: mv,
                                    parallelism: pv,
                                },
                            ),
                            k4 + 1,
                        ),
                    );
                },
                _ => return None,
            }
        } else {
            return None;
        }
    }
}

// --- Bcrypt options object ---------------------------------------------
/// The members of a bcrypt options object, entered after its `{` or a `,`.
#[verifier::opaque]
pub open spec fn sp_bcrypt_opts_members(s: Seq<u8>, i: int, w: Option<u32>) -> Option<(
    BcryptHashOptions,
    int,
)>
    decreases s.len() - i, 1int,
{
    let k = sp_skip_ws(s, i);
    match sp_string(s, k) {
        None => None,
        Some((key, j)) => {
            let k2 = sp_skip_ws(s, j);
            if !(k2 < s.len() && s[k2] == 58) {
                None
            } else {
                let k3 = sp_skip_ws(s, k2 + 1);
                if k3 <= i || k3 > s.len() {
                    None
                } else if key == text::key_work_factor() {
                    if w is Some {
                        None
                    } else {
                        match sp_u32(s, k3) {
                            None => None,
                            Some((v, j2)) => sp_bcrypt_opts_tail(s, i, j2, Some(v)),
                        }
                    }
                } else {
                    match sp_skip_value(s, k3, 126) {
                        None => None,
                        Some(j2) => sp_bcrypt_opts_tail(s, i, j2, w),
                    }
                }
            }
        },
    }
}

/// After one member of a bcrypt options object.
#[verifier::opaque]
pub open spec fn sp_bcrypt_opts_tail(s: Seq<u8>, i: int, j2: int, w: Option<u32>) -> Option<(
    BcryptHashOptions,
    int,
)>
    decreases s.len() - i, 0int,
{
    if j2 <= i || j2 > s.len() {
        None
    } else {
        let k4 = sp_skip_ws(s, j2);
        if k4 < s.len() && s[k4] == 44 {
            if k4 + 1 <= i {
                None
            } else {
                sp_bcrypt_opts_members(s, k4 + 1, w)
            }
        } else if k4 < s.len() && s[k4] == 125 {
            match w {
                Some(wv) => Some((BcryptHashOptions { work_factor: wv }, k4 + 1)),
                None => None,
            }
        } else {
            None
        }
    }
}

/// The value of an `options` member for bcrypt: `null` (absent) or an object
/// holding exactly the `work_factor` field.
#[verifier::opaque]
pub open spec fn sp_bcrypt_options_value(s: Seq<u8>, i: int) -> Option<(
    Option<BcryptHashOptions>,
    int,
)> {
    if 0 <= i && i + 4 <= s.len() && s[i] == 110 && s[i + 1] == 117 && s[i + 2] == 108 && s[i + 3]
        == 108 {
        Some((None, i + 4))
    } else if 0 <= i < s.len() && s[i] == 123 {
        match sp_bcrypt_opts_members(s, i + 1, None) {
            None => None,
            Some((o, e)) => Some((Some(o), e)),
        }
    } else {
        None
    }
}

/// Parses a bcrypt `options` value.
fn parse_bcrypt_options_value(s: &[u8], i: usize) -> (r: Option<(Option<BcryptHashOptions>, usize)>)
    requires
        i <= s@.len(),
    ensures
        match r {
            Some(v) => sp_bcrypt_options_value(s@, i as int) == Some((v.0, v.1 as int)) && i < v.1
                <= s@.len(),
            None => sp_bcrypt_options_value(s@, i as int) is None,
        },
{
    proof {
        reveal(sp_bcrypt_options_value);
    }
    let n: usize = s.len();
    if n - i >= 4 && s[i] == 110 && s[i + 1] == 117 && s[i + 2] == 108 && s[i + 3] == 108 {
        return Some((None, i + 4));
    }
    if !(i < n && s[i] == 123) {
        return None;
    }
    let mut cur: usize = i + 1;
    let mut w: Option<u32> = None;
    loop
        invariant
            i < cur <= n,
            n == s@.len(),
            i < n && s@[i as int] == 123,
            !(n - i >= 4 && s@[i as int] == 110),
            sp_bcrypt_options_value(s@, i as int) == (match sp_bcrypt_opts_members(
                s@,
                cur as int,
                w,
            ) {
                None => None::<(Option<BcryptHashOptions>, int)>,
                Some((o, e)) => Some((Some(o), e)),
            }),
        decreases n - cur,
    {
        proof {
            reveal(sp_bcrypt_options_value);
            reveal(sp_bcrypt_opts_members);
            reveal(sp_bcrypt_opts_tail);
        }
        let k = json::skip_ws(s, cur);
        let (key, j) = match json::parse_string(s, k) {
            Some(v) => v,
            None => return None,
        };
        let k2 = json::skip_ws(s, j);
        if !(k2 < n && s[k2] == 58) {
            return None;
        }
        let k3 = json::skip_ws(s, k2 + 1);
        let j2: usize;
        if bytes_eq(key.as_slice(), text::key_work_factor_vec().as_slice()) {
            if w.is_some() {
                return None;
            }
            match json::parse_u32(s, k3) {
                Some((v, e)) => {
                    w = Some(v);
                    j2 = e;
                },
                None => return None,
            }
        } else {
            match json::skip_value(s, k3, 126) {
                Some(e) => {
                    j2 = e;
                },
                None => return None,
            }
        }
        let k4 = json::skip_ws(s, j2);
        if k4 < n && s[k4] == 44 {
            cur = k4 + 1;
        } else if k4 < n && s[k4] == 125 {
            match w {
                Some(wv) => {
                    return Some((Some(BcryptHashOptions { work_factor: wv }), k4 + 1));
                },
                None => return None,
            }
        } else {
            return None;
        }
    }
}

// --- Argon2 hash request -----------------------------------------------
/// The members of an Argon2 hash request object: `password` (a string,
/// required), `options` (an Argon2 options value), anything else skipped.
#[verifier::opaque]
pub open spec fn sp_argon2_req_members(
    s: Seq<u8>,
    i: int,
    pw: Option<Seq<u8>>,
    o: Option<Option<Argon2HashOptions>>,
) -> Option<((Seq<u8>, Option<Argon2HashOptions>), int)>
    decreases s.len() - i, 1int,
{
    let k = sp_skip_ws(s, i);
    match sp_string(s, k) {
        None => None,
        Some((key, j)) => {
            let k2 = sp_skip_ws(s, j);
            if !(k2 < s.len() && s[k2] == 58) {
                None
            } else {
                let k3 = sp_skip_ws(s, k2 + 1);
                if k3 <= i || k3 > s.len() {
                    None
                } else if key == text::key_password() {
                    if pw is Some {
                        None
                    } else {
                        match sp_string(s, k3) {
                            None => None,
                            Some((v, j2)) => sp_argon2_req_tail(s, i, j2, Some(v), o),
                        }
                    }
                } else if key == text::key_options() {
                    if o is Some {
                        None
                    } else {
                        match sp_argon2_options_value(s, k3) {
                            None => None,
                            Some((v, j2)) => sp_argon2_req_tail(s, i, j2, pw, Some(v)),
                        }
                    }
                } else {
                    match sp_skip_value(s, k3, 127) {
                        None => None,
                        Some(j2) => sp_argon2_req_tail(s, i, j2, pw, o),
                    }
                }
            }
        },
    }
}

/// After one member of an Argon2 hash request object; closing requires
/// `password` to have been seen, an unseen `options` counts as absent.
#[verifier::opaque]
pub open spec fn sp_argon2_req_tail(
    s: Seq<u8>,
    i: int,
    j2: int,
    pw: Option<Seq<u8>>,
    o: Option<Option<Argon2HashOptions>>,
) -> Option<((Seq<u8>, Option<Argon2HashOptions>), int)>
    decreases s.len() - i, 0int,
{
    if j2 <= i || j2 > s.len() {
        None
    } else {
        let k4 = sp_skip_ws(s, j2);
        if k4 < s.len() && s[k4] == 44 {
            if k4 + 1 <= i {
                None
            } else {
                sp_argon2_req_members(s, k4 + 1, pw, o)
            }
        } else if k4 < s.len() && s[k4] == 125 {
            match pw {
                Some(pv) => Some(
                    (
                        (
                            pv,
                            match o {
                                Some(ov) => ov,
                                None => None,
                            },
                        ),
                        k4 + 1,
                    ),
                ),
                None => None,
            }
        } else {
            None
        }
    }
}

/// A whole Argon2 hash request body: one object, nothing but whitespace
/// around it.
pub open spec fn sp_argon2_hash_req(s: Seq<u8>) -> Option<(Seq<u8>, Option<Argon2HashOptions>)> {
    let k = sp_skip_ws(s, 0);
    if !(k < s.len() && s[k] == 123) {
        None
    } else {
        match sp_argon2_req_members(s, k + 1, None, None) {
            None => None,
            Some((res, end)) => if sp_skip_ws(s, end) == s.len() {
                Some(res)
            } else {
                None
            },
        }
    }
}

/// Decodes an Argon2 hash request body.
#[verifier::rlimit(100)]
pub fn parse_argon2_hash_request(s: &[u8]) -> (r: Option<HashRequest<Argon2HashOptions>>)
    ensures
        match r {
            Some(req) => sp_argon2_hash_req(s@) == Some((req.password@, req.options)),
            None => sp_argon2_hash_req(s@) is None,
        },
{
    let n: usize = s.len();
    let k = json::skip_ws(s, 0);
    if !(k < n && s[k] == 123) {
        return None;
    }
    let mut cur: usize = k + 1;
    let mut pw: Option<Vec<u8>> = None;
    let mut o: Option<Option<Argon2HashOptions>> = None;
    loop
        invariant
            k < cur <= n,
            n == s@.len(),
            k < n && s@[k as int] == 123 && k == sp_skip_ws(s@, 0),
            sp_argon2_req_members(
                s@,
                k + 1 as int,
                None::<Seq<u8>>,
                None::<Option<Argon2HashOptions>>,
            ) == sp_argon2_req_members(
                s@,
                cur as int,
                match pw {
                    Some(ref v) => Some(v@),
                    None => None,
                },
                o,
            ),
        decreases n - cur,
    {
        proof {
            reveal(sp_argon2_req_members);
            reveal(sp_argon2_req_tail);
        }
        let ghost pw0 = match pw {
            Some(ref v) => Some(v@),
            None => None::<Seq<u8>>,
        };
        let ghost o0 = o;
        let ghost cur0 = cur as int;
        let kk = json::skip_ws(s, cur);
        let (key, j) = match json::parse_string(s, kk) {
            Some(v) => v,
            None => return None,
        };
        let k2 = json::skip_ws(s, j);
        if !(k2 < n && s[k2] == 58) {
            return None;
        }
        let k3 = json::skip_ws(s, k2 + 1);
        let j2: usize;
        if bytes_eq(key.as_slice(), text::key_password_vec().as_slice()) {
            if pw.is_some() {
                return None;
            }
            match json::parse_string(s, k3) {
                Some((v, e)) => {
                    pw = Some(v);
                    j2 = e;
                },
                None => return None,
            }
        } else if bytes_eq(key.as_slice(), text::key_options_vec().as_slice()) {
            if o.is_some() {
                return None;
            }
            match parse_argon2_options_value(s, k3) {
                Some((v, e)) => {
                    o = Some(v);
                    j2 = e;
                },
                None => return None,
            }
        } else {
            match json::skip_value(s, k3, 127) {
                Some(e) => {
                    j2 = e;
                },
                None => return None,
            }
        }
        proof {
            assert(sp_argon2_req_members(s@, cur0, pw0, o0) == sp_argon2_req_tail(
                s@,
                cur0,
                j2 as int,
                match pw {
                    Some(ref v) => Some(v@),
                    None => None,
                },
                o,
            ));
        }
        let k4 = json::skip_ws(s, j2);
        if k4 < n && s[k4] == 44 {
            cur = k4 + 1;
        } else if k4 < n && s[k4] == 125 {
            match pw {
                Some(pv) => {
                    let end: usize = k4 + 1;
                    let e2 = json::skip_ws(s, end);
                    if e2 != n {
                        return None;
                    }
                    let opts: Option<Argon2HashOptions> = match o {
                        Some(ov) => ov,
                        None => None,
                    };
                    return Some(HashRequest { password: pv, options: opts });
                },
                None => return None,
            }
        } else {
            return None;
        }
    }
}

// --- Bcrypt hash request -----------------------------------------------
/// The members of a bcrypt hash request object.
#[verifier::opaque]
pub open spec fn sp_bcrypt_req_members(
    s: Seq<u8>,
    i: int,
    pw: Option<Seq<u8>>,
    o: Option<Option<BcryptHashOptions>>,
) -> Option<((Seq<u8>, Option<BcryptHashOptions>), int)>
    decreases s.len() - i, 1int,
{
    let k = sp_skip_ws(s, i);
    match sp_string(s, k) {
        None => None,
        Some((key, j)) => {
            let k2 = sp_skip_ws(s, j);
            if !(k2 < s.len() && s[k2] == 58) {
                None
            } else {
                let k3 = sp_skip_ws(s, k2 + 1);
                if k3 <= i || k3 > s.len() {
                    None
                } else if key == text::key_password() {
                    if pw is Some {
                        None
                    } else {
                        match sp_string(s, k3) {
                            None => None,
                            Some((v, j2)) => sp_bcrypt_req_tail(s, i, j2, Some(v), o),
                        }
                    }
                } else if key == text::key_options() {
                    if o is Some {
                        None
                    } else {
                        match sp_bcrypt_options_value(s, k3) {
                            None => None,
                            Some((v, j2)) => sp_bcrypt_req_tail(s, i, j2, pw, Some(v)),
                        }
                    }
                } else {
                    match sp_skip_value(s, k3, 127) {
                        None => None,
                        Some(j2) => sp_bcrypt_req_tail(s, i, j2, pw, o),
                    }
                }
            }
        },
    }
}

/// After one member of a bcrypt hash request object.
#[verifier::opaque]
pub open spec fn sp_bcrypt_req_tail(
    s: Seq<u8>,
    i: int,
    j2: int,
    pw: Option<Seq<u8>>,
    o: Option<Option<BcryptHashOptions>>,
) -> Option<((Seq<u8>, Option<BcryptHashOptions>), int)>
    decreases s.len() - i, 0int,
{
    if j2 <= i || j2 > s.len() {
        None
    } else {
        let k4 = sp_skip_ws(s, j2);
        if k4 < s.len() && s[k4] == 44 {
            if k4 + 1 <= i {
                None
            } else {
                sp_bcrypt_req_members(s, k4 + 1, pw, o)
            }
        } else if k4 < s.len() && s[k4] == 125 {
            match pw {
                Some(pv) => Some(
                    (
                        (
                            pv,
                            match o {
                                Some(ov) => ov,
                                None => None,
                            },
                        ),
                        k4 + 1,
                    ),
                ),
                None => None,
            }
        } else {
            None
        }
    }
}

/// A whole bcrypt hash request body.
pub open spec fn sp_bcrypt_hash_req(s: Seq<u8>) -> Option<(Seq<u8>, Option<BcryptHashOptions>)> {
    let k = sp_skip_ws(s, 0);
    if !(k < s.len() && s[k] == 123) {
        None
    } else {
        match sp_bcrypt_req_members(s, k + 1, None, None) {
            None => None,
            Some((res, end)) => if sp_skip_ws(s, end) == s.len() {
                Some(res)
            } else {
                None
            },
        }
    }
}

/// Decodes a bcrypt hash request body.
#[verifier::rlimit(100)]
pub fn parse_bcrypt_hash_request(s: &[u8]) -> (r: Option<HashRequest<BcryptHashOptions>>)
    ensures
        match r {
            Some(req) => sp_bcrypt_hash_req(s@) == Some((req.password@, req.options)),
            None => sp_bcrypt_hash_req(s@) is None,
        },
{
    let n: usize = s.len();
    let k = json::skip_ws(s, 0);
    if !(k < n && s[k] == 123) {
        return None;
    }
    let mut cur: usize = k + 1;
    let mut pw: Option<Vec<u8>> = None;
    let mut o: Option<Option<BcryptHashOptions>> = None;
    loop
        invariant
            k < cur <= n,
            n == s@.len(),
            k < n && s@[k as int] == 123 && k == sp_skip_ws(s@, 0),
            sp_bcrypt_req_members(
                s@,
                k + 1 as int,
                None::<Seq<u8>>,
                None::<Option<BcryptHashOptions>>,
            ) == sp_bcrypt_req_members(
                s@,
                cur as int,
                match pw {
                    Some(ref v) => Some(v@),
                    None => None,
                },
                o,
            ),
        decreases n - cur,
    {
        proof {
            reveal(sp_bcrypt_req_members);
            reveal(sp_bcrypt_req_tail);
        }
        let ghost pw0 = match pw {
            Some(ref v) => Some(v@),
            None => None::<Seq<u8>>,
        };
        let ghost o0 = o;
        let ghost cur0 = cur as int;
        let kk = json::skip_ws(s, cur);
        let (key, j) = match json::parse_string(s, kk) {
            Some(v) => v,
            None => return None,
        };
        let k2 = json::skip_ws(s, j);
        if !(k2 < n && s[k2] == 58) {
            return None;
        }
        let k3 = json::skip_ws(s, k2 + 1);
        let j2: usize;
        if bytes_eq(key.as_slice(), text::key_password_vec().as_slice()) {
            if pw.is_some() {
                return None;
            }
            match json::parse_string(s, k3) {
                Some((v, e)) => {
                    pw = Some(v);
                    j2 = e;
                },
                None => return None,
            }
        } else if bytes_eq(key.as_slice(), text::key_options_vec().as_slice()) {
            if o.is_some() {
                return None;
            }
            match parse_bcrypt_options_value(s, k3) {
                Some((v, e)) => {
                    o = Some(v);
                    j2 = e;
                },
                None => return None,
            }
        } else {
            match json::skip_value(s, k3, 127) {
                Some(e) => {
                    j2 = e;
                },
                None => return None,
            }
        }
        proof {
            assert(sp_bcrypt_req_members(s@, cur0, pw0, o0) == sp_bcrypt_req_tail(
                s@,
                cur0,
                j2 as int,
                match pw {
                    Some(ref v) => Some(v@),
                    None => None,
                },
                o,
            ));
        }
        let k4 = json::skip_ws(s, j2);
        if k4 < n && s[k4] == 44 {
            cur = k4 + 1;
        } else if k4 < n && s[k4] == 125 {
            match pw {
                Some(pv) => {
                    let end: usize = k4 + 1;
                    let e2 = json::skip_ws(s, end);
                    if e2 != n {
                        return None;
                    }
                    let opts: Option<BcryptHashOptions> = match o {
                        Some(ov) => ov,
                        None => None,
                    };
                    return Some(HashRequest { password: pv, options: opts });
                },
                None => return None,
            }
        } else {
            return None;
        }
    }
}

// --- Verify request ----------------------------------------------------
/// The members of a verify request object: `password` and `hash`, both
/// strings, both required.
#[verifier::opaque]
pub open spec fn sp_verify_req_members(
    s: Seq<u8>,
    i: int,
    pw: Option<Seq<u8>>,
    h: Option<Seq<u8>>,
) -> Option<((Seq<u8>, Seq<u8>), int)>
    decreases s.len() - i, 1int,
{
    let k = sp_skip_ws(s, i);
    match sp_string(s, k) {
        None => None,
        Some((key, j)) => {
            let k2 = sp_skip_ws(s, j);
            if !(k2 < s.len() && s[k2] == 58) {
                None
            } else {
                let k3 = sp_skip_ws(s, k2 + 1);
                if k3 <= i || k3 > s.len() {
                    None
                } else if key == text::key_password() {
                    if pw is Some {
                        None
                    } else {
                        match sp_string(s, k3) {
                            None => None,
                            Some((v, j2)) => sp_verify_req_tail(s, i, j2, Some(v), h),
                        }
                    }
                } else if key == text::key_hash() {
                    if h is Some {
                        None
                    } else {
                        match sp_string(s, k3) {
                            None => None,
                            Some((v, j2)) => sp_verify_req_tail(s, i, j2, pw, Some(v)),
                        }
                    }
                } else {
                    match sp_skip_value(s, k3, 127) {
                        None => None,
                        Some(j2) => sp_verify_req_tail(s, i, j2, pw, h),
                    }
                }
            }
        },
    }
}

/// After one member of a verify request object; closing requires both
/// fields.
#[verifier::opaque]
pub open spec fn sp_verify_req_tail(
    s: Seq<u8>,
    i: int,
    j2: int,
    pw: Option<Seq<u8>>,
    h: Option<Seq<u8>>,
) -> Option<((Seq<u8>, Seq<u8>), int)>
    decreases s.len() - i, 0int,
{
    if j2 <= i || j2 > s.len() {
        None
    } else {
        let k4 = sp_skip_ws(s, j2);
        if k4 < s.len() && s[k4] == 44 {
            if k4 + 1 <= i {
                None
            } else {
                sp_verify_req_members(s, k4 + 1, pw, h)
            }
        } else if k4 < s.len() && s[k4] == 125 {
            match (pw, h) {
                (Some(pv), Some(hv)) => Some(((pv, hv), k4 + 1)),
                _ => None,
            }
        } else {
            None
        }
    }
}

/// A whole verify request body.
pub open spec fn sp_verify_req(s: Seq<u8>) -> Option<(Seq<u8>, Seq<u8>)> {
    let k = sp_skip_ws(s, 0);
    if !(k < s.len() && s[k] == 123) {
        None
    } else {
        match sp_verify_req_members(s, k + 1, None, None) {
            None => None,
            Some((res, end)) => if sp_skip_ws(s, end) == s.len() {
                Some(res)
            } else {
                None
            },
        }
    }
}

/// Decodes a verify request body.
#[verifier::rlimit(100)]
pub fn parse_verify_request(s: &[u8]) -> (r: Option<VerifyRequest>)
    ensures
        match r {
            Some(req) => sp_verify_req(s@) == Some((req.password@, req.hash@)),
            None => sp_verify_req(s@) is None,
        },
{
    let n: usize = s.len();
    let k = json::skip_ws(s, 0);
    if !(k < n && s[k] == 123) {
        return None;
    }
    let mut cur: usize = k + 1;
    let mut pw: Option<Vec<u8>> = None;
    let mut h: Option<Vec<u8>> = None;
    loop
        invariant
            k < cur <= n,
            n == s@.len(),
            k < n && s@[k as int] == 123 && k == sp_skip_ws(s@, 0),
            sp_verify_req_members(
                s@,
                k + 1 as int,
                None::<Seq<u8>>,
                None::<Seq<u8>>,
            ) == sp_verify_req_members(
                s@,
                cur as int,
                match pw {
                    Some(ref v) => Some(v@),
                    None => None,
                },
                match h {
                    Some(ref v) => Some(v@),
                    None => None,
                },
            ),
        decreases n - cur,
    {
        proof {
            reveal(sp_verify_req_members);
            reveal(sp_verify_req_tail);
        }
        let ghost pw0 = match pw {
            Some(ref v) => Some(v@),
            None => None::<Seq<u8>>,
        };
        let ghost h0 = match h {
            Some(ref v) => Some(v@),
            None => None::<Seq<u8>>,
        };
        let ghost cur0 = cur as int;
        let kk = json::skip_ws(s, cur);
        let (key, j) = match json::parse_string(s, kk) {
            Some(v) => v,
            None => return None,
        };
        let k2 = json::skip_ws(s, j);
        if !(k2 < n && s[k2] == 58) {
            return None;
        }
        let k3 = json::skip_ws(s, k2 + 1);
        let j2: usize;
        if bytes_eq(key.as_slice(), text::key_password_vec().as_slice()) {
            if pw.is_some() {
                return None;
            }
            match json::parse_string(s, k3) {
                Some((v, e)) => {
                    pw = Some(v);
                    j2 = e;
                },
                None => return None,
            }
        } else if bytes_eq(key.as_slice(), text::key_hash_vec().as_slice()) {
            if h.is_some() {
                return None;
            }
            match json::parse_string(s, k3) {
                Some((v, e)) => {
                    h = Some(v);
                    j2 = e;
                },
                None => return None,
            }
        } else {
            match json::skip_value(s, k3, 127) {
                Some(e) => {
                    j2 = e;
                },
                None => return None,
            }
        }
        proof {
            assert(sp_verify_req_members(s@, cur0, pw0, h0) == sp_verify_req_tail(
                s@,
                cur0,
                j2 as int,
                match pw {
                    Some(ref v) => Some(v@),
                    None => None,
                },
                match h {
                    Some(ref v) => Some(v@),
                    None => None,
                },
            ));
        }
        let k4 = json::skip_ws(s, j2);
        if k4 < n && s[k4] == 44 {
            cur = k4 + 1;
        } else if k4 < n && s[k4] == 125 {
            match (pw, h) {
                (Some(pv), Some(hv)) => {
                    let end: usize = k4 + 1;
                    let e2 = json::skip_ws(s, end);
                    if e2 != n {
                        return None;
                    }
                    return Some(VerifyRequest { password: pv, hash: hv });
                },
                _ => return None,
            }
        } else {
            return None;
        }
    }
}

} // verus!
