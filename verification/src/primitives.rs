//! The trusted boundary to the two password-hashing primitives.
//!
//! The cryptographic work itself (Argon2id key derivation, bcrypt's Blowfish
//! schedule, salt generation, digest encoding and parsing) is done by the
//! `argon2`/`password-hash` and `bcrypt` crates. Each call is wrapped in an
//! `external_body` function whose contract states, over a few uninterpreted
//! names, exactly what the crates' sources show; everything downstream is
//! verified against those contracts.
use vstd::prelude::*;

use crate::params::argon2_params_ok;
use crate::params::argon2_params_prefix;
use crate::text;
use crate::util::has_prefix;

use argon2::password_hash::PasswordHasher;
use argon2::password_hash::PasswordVerifier;

verus! {

/// Whether a byte string is valid UTF-8, as decided by `core::str::from_utf8`.
pub uninterp spec fn utf8_ok(b: Seq<u8>) -> bool;

/// Whether `password_hash::PasswordHash::new` parses a (UTF-8) byte string as
/// a PHC-format digest string.
pub uninterp spec fn argon2_parseable(h: Seq<u8>) -> bool;

/// The result of `argon2::Argon2::default().verify_password(p, h)` on a
/// parseable digest `h`: 0 when verification succeeds, 1 when it reports a
/// password mismatch (`Error::Password`), any other value for any other
/// failure. Verification is a pure function of the password and the digest.
pub uninterp spec fn argon2_outcome(p: Seq<u8>, h: Seq<u8>) -> int;

/// Whether `bcrypt::verify(_, h)` accepts the (UTF-8) byte string `h`: a
/// 60-byte `$2a/2b/2x/2y$` hash whose two-character cost field parses as an
/// integer in 4..=31 and whose salt and digest parts are valid base64.
/// Acceptance does not depend on the password.
pub uninterp spec fn bcrypt_accepts(h: Seq<u8>) -> bool;

/// The boolean result of `bcrypt::verify(p, h)` on an accepted digest `h`:
/// whether recomputing bcrypt over `p` with the embedded cost and salt yields
/// the embedded digest. A pure function of the password and the digest.
pub uninterp spec fn bcrypt_match(p: Seq<u8>, h: Seq<u8>) -> bool;

/// A parseable Argon2 digest on which verification always either succeeds or
/// reports a mismatch, never an internal failure, whatever the password.
pub open spec fn argon2_decisive(h: Seq<u8>) -> bool {
    forall|q: Seq<u8>| argon2_outcome(q, h) == 0 || argon2_outcome(q, h) == 1
}

/// The outcome of one Argon2 verification attempt.
#[derive(Clone, Copy, PartialEq, Eq, Structural, Debug)]
pub enum ArgonCheck {
    /// The digest parsed and the password matches it.
    Match,
    /// The digest parsed and the password does not match it.
    Mismatch,
    /// The digest string could not be parsed.
    BadHash,
    /// The primitive failed for a reason other than a mismatch.
    Failed,
}

/// Relies on `core::str::from_utf8`: returns whether the bytes are valid
/// UTF-8; ASCII bytes always are.
#[verifier::external_body]
pub(crate) fn utf8_check(b: &[u8]) -> (r: bool)
    ensures
        r == utf8_ok(b@),
        (forall|i: int| 0 <= i < b@.len() ==> b@[i] < 128) ==> r,
{
    core::str::from_utf8(b).is_ok()
}

/// Relies on `argon2::Params::new` and `Argon2::hash_password` (algorithm
/// fixed to Argon2id, default version, fresh `SaltString::generate` salt).
/// Of a produced digest the crates' sources show: it is the ASCII PHC string
/// `$argon2id$v=19$m=<m>,t=<t>,p=<p>$...` — the algorithm tag, the version
/// (decimal 19) and the given parameters, serialized in that order, stand
/// before the salt — that `PasswordHash::new` parses back; verifying it
/// against the same password succeeds, and against any password either
/// succeeds or reports a mismatch (the embedded version and parameters are
/// supported); `bcrypt::verify` rejects it (it is longer than 60 bytes). The
/// parameters are within the primitive's accepted ranges by precondition, so
/// an `Err` can only come from the hashing step itself. Should the OS
/// randomness source fail, salt generation aborts the process rather than
/// returning — an environmental failure, like memory exhaustion.
#[verifier::external_body]
pub(crate) fn argon2_hash_digest(password: &[u8], m_cost: u32, t_cost: u32, p_cost: u32) -> (r:
    Result<Vec<u8>, ()>)
    requires
        argon2_params_ok(m_cost, t_cost, p_cost),
    ensures
        r is Ok ==> ({
            let h = r->Ok_0@;
            &&& utf8_ok(h)
            &&& argon2_parseable(h)
            &&& argon2_outcome(password@, h) == 0
            &&& argon2_decisive(h)
            &&& !bcrypt_accepts(h)
            &&& h.len() > 10
            &&& h.subrange(0, 10) == text::argon2id_prefix()
            &&& has_prefix(h, argon2_params_prefix(m_cost, t_cost, p_cost))
        }),
{
    let salt = argon2::password_hash::SaltString::generate(
        &mut argon2::password_hash::rand_core::OsRng,
    );
    let params = match argon2::Params::new(m_cost, t_cost, p_cost, None) {
        Ok(p) => p,
        Err(_) => return Err(()),
    };
    let hasher = argon2::Argon2::new(argon2::Algorithm::Argon2id, argon2::Version::default(), params);
    match hasher.hash_password(password, &salt) {
        Ok(digest) => Ok(digest.to_string().into_bytes()),
        Err(_) => Err(()),
    }
}

/// Relies on `password_hash::PasswordHash::new` and
/// `Argon2::default().verify_password`: parse failure is reported apart from
/// the deterministic verification outcome, and a mismatch
/// (`Error::Password`) apart from any other failure.
#[verifier::external_body]
pub(crate) fn argon2_check_digest(password: &[u8], hash: &[u8]) -> (r: ArgonCheck)
    requires
        utf8_ok(hash@),
    ensures
        (r == ArgonCheck::BadHash) <==> !argon2_parseable(hash@),
        argon2_parseable(hash@) ==> ((r == ArgonCheck::Match) <==> argon2_outcome(
            password@,
            hash@,
        ) == 0),
        argon2_parseable(hash@) ==> ((r == ArgonCheck::Mismatch) <==> argon2_outcome(
            password@,
            hash@,
        ) == 1),
{
    let s = core::str::from_utf8(hash).unwrap();
    let parsed = match argon2::password_hash::PasswordHash::new(s) {
        Ok(p) => p,
        Err(_) => return ArgonCheck::BadHash,
    };
    match argon2::Argon2::default().verify_password(password, &parsed) {
        Ok(()) => ArgonCheck::Match,
        Err(argon2::password_hash::Error::Password) => ArgonCheck::Mismatch,
        Err(_) => ArgonCheck::Failed,
    }
}

/// Relies on `bcrypt::hash` (fresh random salt, version `2b`): a cost
/// outside 4..=31 always fails, and that check comes first, so a success
/// implies the cost was in range; an in-range call can still fail if drawing
/// the salt from the OS randomness source fails. Of a produced digest the
/// crate's source shows: it is the 60-byte ASCII string `$2b$` followed by
/// the cost written as exactly two decimal digits and a `$`, which
/// `bcrypt::verify` accepts and matches against the same password, and which
/// `PasswordHash::new` rejects (the two-character cost field is shorter than
/// the minimum PHC salt of four).
#[verifier::external_body]
pub(crate) fn bcrypt_hash_digest(password: &[u8], cost: u32) -> (r: Result<Vec<u8>, ()>)
    ensures
        !(4 <= cost <= 31) ==> r is Err,
        r is Ok ==> 4 <= cost <= 31,
        r is Ok ==> ({
            let h = r->Ok_0@;
            &&& utf8_ok(h)
            &&& bcrypt_accepts(h)
            &&& bcrypt_match(password@, h)
            &&& !argon2_parseable(h)
            &&& h.len() == 60
            &&& h.subrange(0, 4) == text::bcrypt_prefix()
            &&& h[4] == 48 + (cost as int) / 10
            &&& h[5] == 48 + (cost as int) % 10
        }),
{
    match bcrypt::hash(password, cost) {
        Ok(s) => Ok(s.into_bytes()),
        Err(_) => Err(()),
    }
}

/// Relies on `bcrypt::verify`: it fails exactly when the digest string is not
/// accepted, and otherwise returns the deterministic comparison result.
#[verifier::external_body]
pub(crate) fn bcrypt_check_digest(password: &[u8], hash: &[u8]) -> (r: Result<bool, ()>)
    requires
        utf8_ok(hash@),
    ensures
        (r is Err) <==> !bcrypt_accepts(hash@),
        r is Ok ==> r->Ok_0 == bcrypt_match(password@, hash@),
{
    let s = core::str::from_utf8(hash).unwrap();
    match bcrypt::verify(password, s) {
        Ok(b) => Ok(b),
        Err(_) => Err(()),
    }
}

} // verus!
