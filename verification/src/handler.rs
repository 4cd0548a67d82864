//! The request-to-response pipeline: decode the body, run the operation,
//! serialize the payload or report the classified error.
use vstd::prelude::*;

use crate::body;
use crate::body::sp_argon2_hash_req;
use crate::body::sp_bcrypt_hash_req;
use crate::body::sp_verify_req;
use crate::error::Error;
use crate::error::Reply;
use crate::error::spec_message;
use crate::error::spec_status;
use crate::ops;
use crate::ops::argon2_digest_for;
use crate::ops::argon2_verify_bad_hash;
use crate::ops::argon2_verify_ok_false;
use crate::ops::argon2_verify_ok_true;
use crate::ops::bcrypt_cost_embedded;
use crate::ops::bcrypt_digest_for;
use crate::ops::bcrypt_verify_accepts;
use crate::params::argon2_effective_prefix;
use crate::params::argon2_options_ok;
use crate::params::bcrypt_effective_cost;
use crate::primitives::bcrypt_match;
use crate::respond;
use crate::respond::spec_hash_body;
use crate::respond::spec_verify_body;
use crate::route;
use crate::route::HttpMethod;
use crate::route::Operation;
use crate::route::spec_route;
use crate::text;
use crate::util::has_prefix;

verus! {

/// What the Argon2 hash endpoint replies to a request body: `BadRequest` on
/// an undecodable body, `InvalidHashOptions` on a rejected option tuple, and
/// otherwise either a digest response or `HashFailed`.
pub open spec fn argon2_hash_outcome(body: Seq<u8>, status: u16, out: Seq<u8>) -> bool {
    match sp_argon2_hash_req(body) {
        None => status == 400 && out == text::msg_bad_request(),
        Some(q) => if q.1 is Some && !argon2_options_ok(q.1->0) {
            status == 400 && out == text::msg_invalid_hash_options()
        } else {
            (status == 200 && exists|h: Seq<u8>|
                argon2_digest_for(q.0, h) && has_prefix(h, argon2_effective_prefix(q.1)) && out
                    == spec_hash_body(h)) || (status == 500 && out == text::msg_hash_failed())
        },
    }
}

/// What the Argon2 verify endpoint replies: a boolean verdict for a
/// parseable digest, `InvalidPasswordHash` for an unparseable one,
/// `VerifyFailed` for any other primitive failure.
pub open spec fn argon2_verify_outcome(body: Seq<u8>, status: u16, out: Seq<u8>) -> bool {
    match sp_verify_req(body) {
        None => status == 400 && out == text::msg_bad_request(),
        Some(q) => if argon2_verify_ok_true(q.0, q.1) {
            status == 200 && out == spec_verify_body(true)
        } else if argon2_verify_ok_false(q.0, q.1) {
            status == 200 && out == spec_verify_body(false)
        } else if argon2_verify_bad_hash(q.1) {
            status == 400 && out == text::msg_invalid_password_hash()
        } else {
            status == 500 && out == text::msg_verify_failed()
        },
    }
}

/// What the bcrypt hash endpoint replies: the work factor is not validated
/// separately, an out-of-range cost surfaces as `HashFailed`, as does any
/// other failure of the primitive.
pub open spec fn bcrypt_hash_outcome(body: Seq<u8>, status: u16, out: Seq<u8>) -> bool {
    match sp_bcrypt_hash_req(body) {
        None => status == 400 && out == text::msg_bad_request(),
        Some(q) => if q.1 is Some && !(4 <= q.1->0.work_factor <= 31) {
            status == 500 && out == text::msg_hash_failed()
        } else {
            (status == 200 && exists|h: Seq<u8>|
                bcrypt_digest_for(q.0, h) && bcrypt_cost_embedded(h, bcrypt_effective_cost(q.1))
                    && out == spec_hash_body(h)) || (status == 500 && out
                == text::msg_hash_failed())
        },
    }
}

/// What the bcrypt verify endpoint replies: every primitive failure,
/// including a malformed digest, is `VerifyFailed`.
pub open spec fn bcrypt_verify_outcome(body: Seq<u8>, status: u16, out: Seq<u8>) -> bool {
    match sp_verify_req(body) {
        None => status == 400 && out == text::msg_bad_request(),
        Some(q) => if bcrypt_verify_accepts(q.1) {
            status == 200 && out == spec_verify_body(bcrypt_match(q.0, q.1))
        } else {
            status == 500 && out == text::msg_verify_failed()
        },
    }
}

/// Serves one Argon2 hash request body.
pub fn argon2id_hash_handler(body: &[u8]) -> (r: Result<Vec<u8>, Error>)
    ensures
        match sp_argon2_hash_req(body@) {
            None => r == Err::<Vec<u8>, Error>(Error::BadRequest),
            Some(q) => if q.1 is Some && !argon2_options_ok(q.1->0) {
                r == Err::<Vec<u8>, Error>(Error::InvalidHashOptions)
            } else {
                (r matches Ok(out) && exists|h: Seq<u8>|
                    argon2_digest_for(q.0, h) && has_prefix(h, argon2_effective_prefix(q.1)) && out@
                        == spec_hash_body(h)) || r == Err::<Vec<u8>, Error>(Error::HashFailed)
            },
        },
{
    let req = match body::parse_argon2_hash_request(body) {
        Some(q) => q,
        None => return Err(Error::BadRequest),
    };
    let digest = match ops::argon2id_hash(req.password.as_slice(), req.options) {
        Ok(d) => d,
        Err(e) => return Err(e),
    };
    Ok(respond::hash_response_body(digest.as_slice()))
}

/// Serves one Argon2 verify request body.
pub fn argon2id_verify_handler(body: &[u8]) -> (r: Result<Vec<u8>, Error>)
    ensures
        match sp_verify_req(body@) {
            None => r == Err::<Vec<u8>, Error>(Error::BadRequest),
            Some(q) => if argon2_verify_ok_true(q.0, q.1) {
                r matches Ok(out) && out@ == spec_verify_body(true)
            } else if argon2_verify_ok_false(q.0, q.1) {
                r matches Ok(out) && out@ == spec_verify_body(false)
            } else if argon2_verify_bad_hash(q.1) {
                r == Err::<Vec<u8>, Error>(Error::InvalidPasswordHash)
            } else {
                r == Err::<Vec<u8>, Error>(Error::VerifyFailed)
            },
        },
{
    let req = match body::parse_verify_request(body) {
        Some(q) => q,
        None => return Err(Error::BadRequest),
    };
    let result = match ops::argon2id_verify(&req) {
        Ok(b) => b,
        Err(e) => return Err(e),
    };
    Ok(respond::verify_response_body(result))
}

/// Serves one bcrypt hash request body.
pub fn bcrypt_hash_handler(body: &[u8]) -> (r: Result<Vec<u8>, Error>)
    ensures
        match sp_bcrypt_hash_req(body@) {
            None => r == Err::<Vec<u8>, Error>(Error::BadRequest),
            Some(q) => if q.1 is Some && !(4 <= q.1->0.work_factor <= 31) {
                r == Err::<Vec<u8>, Error>(Error::HashFailed)
            } else {
                (r matches Ok(out) && exists|h: Seq<u8>|
                    bcrypt_digest_for(q.0, h) && bcrypt_cost_embedded(
                        h,
                        bcrypt_effective_cost(q.1),
                    ) && out@ == spec_hash_body(h)) || r == Err::<Vec<u8>, Error>(Error::HashFailed)
            },
        },
{
    let req = match body::parse_bcrypt_hash_request(body) {
        Some(q) => q,
        None => return Err(Error::BadRequest),
    };
    let digest = match ops::bcrypt_hash(req.password.as_slice(), req.options) {
        Ok(d) => d,
        Err(e) => return Err(e),
    };
    Ok(respond::hash_response_body(digest.as_slice()))
}

/// Serves one bcrypt verify request body.
pub fn bcrypt_verify_handler(body: &[u8]) -> (r: Result<Vec<u8>, Error>)
    ensures
        match sp_verify_req(body@) {
            None => r == Err::<Vec<u8>, Error>(Error::BadRequest),
            Some(q) => if bcrypt_verify_accepts(q.1) {
                r matches Ok(out) && out@ == spec_verify_body(bcrypt_match(q.0, q.1))
            } else {
                r == Err::<Vec<u8>, Error>(Error::VerifyFailed)
            },
        },
{
    let req = match body::parse_verify_request(body) {
        Some(q) => q,
        None => return Err(Error::BadRequest),
    };
    let result = match ops::bcrypt_verify(&req) {
        Ok(b) => b,
        Err(e) => return Err(e),
    };
    Ok(respond::verify_response_body(result))
}

/// Serves one request end to end: routes the method and path, decodes the
/// body, runs the operation, and shapes the reply. A successful operation
/// replies 200 with the payload; every failure replies its kind's fixed
/// status and message.
pub fn handle(method: HttpMethod, path: &[u8], body: &[u8]) -> (r: Reply)
    ensures
        spec_route(method, path@) is None ==> r.status == 404 && r.body@ == text::msg_not_found(),
        spec_route(method, path@) == Some(Operation::Argon2Hash) ==> argon2_hash_outcome(
            body@,
            r.status,
            r.body@,
        ),
        spec_route(method, path@) == Some(Operation::Argon2Verify) ==> argon2_verify_outcome(
            body@,
            r.status,
            r.body@,
        ),
        spec_route(method, path@) == Some(Operation::BcryptHash) ==> bcrypt_hash_outcome(
            body@,
            r.status,
            r.body@,
        ),
        spec_route(method, path@) == Some(Operation::BcryptVerify) ==> bcrypt_verify_outcome(
            body@,
            r.status,
            r.body@,
        ),
{
    let op = match route::route(method, path) {
        Some(op) => op,
        None => {
            return Error::InvalidRoute.to_response();
        },
    };
    let result: Result<Vec<u8>, Error> = match op {
        Operation::Argon2Hash => argon2id_hash_handler(body),
        Operation::Argon2Verify => argon2id_verify_handler(body),
        Operation::BcryptHash => bcrypt_hash_handler(body),
        Operation::BcryptVerify => bcrypt_verify_handler(body),
    };
    match result {
        Ok(payload) => Reply { status: 200, body: payload },
        Err(e) => e.to_response(),
    }
}

} // verus!
