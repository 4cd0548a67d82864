//! The four operations: Argon2id hash/verify and bcrypt hash/verify.
//!
//! Each operation validates its inputs, invokes the primitive through the
//! trusted boundary, and classifies every failure into one `Error` kind.
use vstd::prelude::*;

use crate::error::Error;
use crate::params;
use crate::params::argon2_effective_prefix;
use crate::params::argon2_options_ok;
use crate::params::bcrypt_effective_cost;
use crate::primitives;
use crate::primitives::ArgonCheck;
use crate::primitives::argon2_decisive;
use crate::primitives::argon2_outcome;
use crate::primitives::argon2_parseable;
use crate::primitives::bcrypt_accepts;
use crate::primitives::bcrypt_match;
use crate::primitives::utf8_ok;
use crate::text;
use crate::types::Argon2HashOptions;
use crate::types::BcryptHashOptions;
use crate::types::VerifyRequest;
use crate::util::has_prefix;

verus! {

/// What `argon2id_hash` guarantees of every digest it returns: Argon2id
/// verification of the same password against it succeeds, verification of
/// any password against it is decisive (match or mismatch, never an internal
/// failure), and bcrypt rejects it outright.
pub open spec fn argon2_digest_for(p: Seq<u8>, h: Seq<u8>) -> bool {
    &&& utf8_ok(h)
    &&& argon2_parseable(h)
    &&& argon2_outcome(p, h) == 0
    &&& argon2_decisive(h)
    &&& !bcrypt_accepts(h)
    &&& h.len() > 10
    &&& h.subrange(0, 10) == text::argon2id_prefix()
}

/// The condition under which `argon2id_verify` returns `Ok(true)`.
pub open spec fn argon2_verify_ok_true(p: Seq<u8>, h: Seq<u8>) -> bool {
    utf8_ok(h) && argon2_parseable(h) && argon2_outcome(p, h) == 0
}

/// The condition under which `argon2id_verify` returns `Ok(false)`.
pub open spec fn argon2_verify_ok_false(p: Seq<u8>, h: Seq<u8>) -> bool {
    utf8_ok(h) && argon2_parseable(h) && argon2_outcome(p, h) == 1
}

/// The condition under which `argon2id_verify` rejects the digest string
/// itself as unparseable.
pub open spec fn argon2_verify_bad_hash(h: Seq<u8>) -> bool {
    !(utf8_ok(h) && argon2_parseable(h))
}

/// What `bcrypt_hash` guarantees of every digest it returns: bcrypt
/// verification accepts it and matches the same password against it, and the
/// PHC parser used by Argon2 verification rejects it outright.
pub open spec fn bcrypt_digest_for(p: Seq<u8>, h: Seq<u8>) -> bool {
    &&& utf8_ok(h)
    &&& bcrypt_accepts(h)
    &&& bcrypt_match(p, h)
    &&& !argon2_parseable(h)
    &&& h.len() == 60
    &&& h.subrange(0, 4) == text::bcrypt_prefix()
}

/// The condition under which `bcrypt_verify` returns `Ok` at all.
pub open spec fn bcrypt_verify_accepts(h: Seq<u8>) -> bool {
    utf8_ok(h) && bcrypt_accepts(h)
}

/// Whether a bcrypt digest embeds the given cost: its fifth and sixth bytes
/// are the cost written as exactly two decimal digits.
pub open spec fn bcrypt_cost_embedded(h: Seq<u8>, cost: u32) -> bool {
    &&& h.len() == 60
    &&& h[4] == 48 + (cost as int) / 10
    &&& h[5] == 48 + (cost as int) % 10
}

/// Hashes a password with Argon2id and a fresh random salt.
///
/// With options present, the tuple is validated against the primitive's
/// accepted ranges and rejected as `InvalidHashOptions`; with options
/// absent, the algorithm's published defaults apply. The produced digest
/// embeds the version and the parameters that were used, so verification
/// needs no side-channel parameter storage. Any failure of the primitive
/// itself is `HashFailed`.
pub fn argon2id_hash(password: &[u8], options: Option<Argon2HashOptions>) -> (r: Result<
    Vec<u8>,
    Error,
>)
    ensures
        (r == Err::<Vec<u8>, Error>(Error::InvalidHashOptions)) <==> (options is Some
            && !argon2_options_ok(options->0)),
        r is Err ==> r == Err::<Vec<u8>, Error>(Error::InvalidHashOptions) || r == Err::<
            Vec<u8>,
            Error,
        >(Error::HashFailed),
        r is Ok ==> argon2_digest_for(password@, r->Ok_0@) && has_prefix(
            r->Ok_0@,
            argon2_effective_prefix(options),
        ),
{
    let outcome: Result<Vec<u8>, ()> = match options {
        Some(opts) => {
            if !params::argon2_options_valid(&opts) {
                return Err(Error::InvalidHashOptions);
            }
            primitives::argon2_hash_digest(
                password,
                opts.memory_cost,
                opts.time_cost,
                opts.parallelism,
            )
        },
        None => primitives::argon2_hash_digest(
            password,
            params::ARGON2_DEFAULT_M_COST,
            params::ARGON2_DEFAULT_T_COST,
            params::ARGON2_DEFAULT_P_COST,
        ),
    };
    match outcome {
        Ok(digest) => Ok(digest),
        Err(()) => Err(Error::HashFailed),
    }
}

/// Verifies a password against an Argon2id digest string.
///
/// An unparseable digest is `InvalidPasswordHash`; a parsed digest yields
/// `Ok(true)` on a match, `Ok(false)` on a mismatch (never an error), and
/// `VerifyFailed` for any other primitive failure.
pub fn argon2id_verify(request: &VerifyRequest) -> (r: Result<bool, Error>)
    ensures
        (r == Ok::<bool, Error>(true)) <==> argon2_verify_ok_true(request.password@, request.hash@),
        (r == Ok::<bool, Error>(false)) <==> argon2_verify_ok_false(
            request.password@,
            request.hash@,
        ),
        (r == Err::<bool, Error>(Error::InvalidPasswordHash)) <==> argon2_verify_bad_hash(
            request.hash@,
        ),
        r is Err ==> r == Err::<bool, Error>(Error::InvalidPasswordHash) || r == Err::<
            bool,
            Error,
        >(Error::VerifyFailed),
{
    if !primitives::utf8_check(request.hash.as_slice()) {
        return Err(Error::InvalidPasswordHash);
    }
    match primitives::argon2_check_digest(request.password.as_slice(), request.hash.as_slice()) {
        ArgonCheck::Match => Ok(true),
        ArgonCheck::Mismatch => Ok(false),
        ArgonCheck::BadHash => Err(Error::InvalidPasswordHash),
        ArgonCheck::Failed => Err(Error::VerifyFailed),
    }
}

/// Hashes a password with bcrypt and a fresh random salt.
///
/// The work factor is handed to the primitive as given: an out-of-range cost
/// surfaces as `HashFailed`, not as a distinguished option error, and any
/// other failure of the primitive (such as the randomness source failing) is
/// `HashFailed` too. With options absent, the primitive's published default
/// cost applies; the produced digest embeds the cost that was used.
pub fn bcrypt_hash(password: &[u8], options: Option<BcryptHashOptions>) -> (r: Result<
    Vec<u8>,
    Error,
>)
    ensures
        r is Err ==> r == Err::<Vec<u8>, Error>(Error::HashFailed),
        (options is Some && !(4 <= options->0.work_factor <= 31)) ==> r is Err,
        r is Ok ==> 4 <= bcrypt_effective_cost(options) <= 31,
        r is Ok ==> bcrypt_digest_for(password@, r->Ok_0@) && bcrypt_cost_embedded(
            r->Ok_0@,
            bcrypt_effective_cost(options),
        ),
{
    let cost: u32 = match options {
        Some(opts) => opts.work_factor,
        None => params::BCRYPT_DEFAULT_COST,
    };
    match primitives::bcrypt_hash_digest(password, cost) {
        Ok(digest) => Ok(digest),
        Err(()) => Err(Error::HashFailed),
    }
}

/// Verifies a password against a bcrypt digest string.
///
/// Every primitive failure, including a malformed digest string, is
/// classified uniformly as `VerifyFailed`; a mismatch is the successful
/// result `Ok(false)`.
pub fn bcrypt_verify(request: &VerifyRequest) -> (r: Result<bool, Error>)
    ensures
        (r is Err) <==> !bcrypt_verify_accepts(request.hash@),
        r is Err ==> r == Err::<bool, Error>(Error::VerifyFailed),
        r is Ok ==> r->Ok_0 == bcrypt_match(request.password@, request.hash@),
{
    if !primitives::utf8_check(request.hash.as_slice()) {
        return Err(Error::VerifyFailed);
    }
    match primitives::bcrypt_check_digest(request.password.as_slice(), request.hash.as_slice()) {
        Ok(b) => Ok(b),
        Err(()) => Err(Error::VerifyFailed),
    }
}

} // verus!
