//! The cross-operation guarantees of the service, stated over the spec
//! conditions that the operations' own contracts use.
use vstd::prelude::*;

use crate::ops::argon2_digest_for;
use crate::ops::argon2_verify_bad_hash;
use crate::ops::argon2_verify_ok_false;
use crate::ops::argon2_verify_ok_true;
use crate::ops::bcrypt_digest_for;
use crate::ops::bcrypt_verify_accepts;
use crate::primitives::argon2_outcome;
use crate::primitives::bcrypt_match;

verus! {

/// Round trip, Argon2id: every digest `argon2id_hash` produces for a
/// password makes `argon2id_verify` of that password return `Ok(true)`.
pub proof fn lemma_argon2_round_trip(p: Seq<u8>, h: Seq<u8>)
    requires
        argon2_digest_for(p, h),
    ensures
        argon2_verify_ok_true(p, h),
{
}

/// Round trip, bcrypt: every digest `bcrypt_hash` produces for a password
/// makes `bcrypt_verify` of that password return `Ok(true)`.
pub proof fn lemma_bcrypt_round_trip(p: Seq<u8>, h: Seq<u8>)
    requires
        bcrypt_digest_for(p, h),
    ensures
        bcrypt_verify_accepts(h),
        bcrypt_match(p, h),
{
}

/// Negative, Argon2id: verifying a non-matching password against a digest
/// `argon2id_hash` produced is the successful mismatch `Ok(false)`, never an
/// error.
pub proof fn lemma_argon2_negative(p1: Seq<u8>, p2: Seq<u8>, h: Seq<u8>)
    requires
        argon2_digest_for(p1, h),
        argon2_outcome(p2, h) != 0,
    ensures
        argon2_verify_ok_false(p2, h),
{
}

/// Negative, bcrypt: a digest `bcrypt_hash` produced is accepted by bcrypt
/// verification whatever password is offered, so verifying a non-matching
/// password against it is the successful mismatch `Ok(false)`, never an
/// error.
pub proof fn lemma_bcrypt_negative(p1: Seq<u8>, p2: Seq<u8>, h: Seq<u8>)
    requires
        bcrypt_digest_for(p1, h),
        !bcrypt_match(p2, h),
    ensures
        bcrypt_verify_accepts(h),
{
}

/// Cross-algorithm isolation: a bcrypt digest handed to Argon2 verification
/// is rejected as an unparseable hash (`InvalidPasswordHash`), and an Argon2
/// digest handed to bcrypt verification is not accepted (`VerifyFailed`);
/// neither yields a boolean verdict.
pub proof fn lemma_cross_algorithm(p: Seq<u8>, q: Seq<u8>, ha: Seq<u8>, hb: Seq<u8>)
    requires
        argon2_digest_for(p, ha),
        bcrypt_digest_for(q, hb),
    ensures
        argon2_verify_bad_hash(hb),
        !bcrypt_verify_accepts(ha),
{
}

} // verus!
