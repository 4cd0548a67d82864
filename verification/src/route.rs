//! Mapping from (HTTP method, path) to one of the four operations.
use vstd::prelude::*;

use crate::text;
use crate::util::bytes_eq;

verus! {

/// The HTTP method of an inbound request, as far as routing cares.
#[derive(Clone, Copy, PartialEq, Eq, Structural, Debug)]
pub enum HttpMethod {
    Get,
    Post,
    /// Any method other than GET or POST.
    Other,
}

/// One of the four operations the service offers.
#[derive(Clone, Copy, PartialEq, Eq, Structural, Debug)]
pub enum Operation {
    Argon2Hash,
    Argon2Verify,
    BcryptHash,
    BcryptVerify,
}

/// The operation a method/path pair names, if any: only POST to one of the
/// four fixed paths is recognized.
pub open spec fn spec_route(m: HttpMethod, path: Seq<u8>) -> Option<Operation> {
    if m != HttpMethod::Post {
        None
    } else if path == text::path_argon2_hash() {
        Some(Operation::Argon2Hash)
    } else if path == text::path_argon2_verify() {
        Some(Operation::Argon2Verify)
    } else if path == text::path_bcrypt_hash() {
        Some(Operation::BcryptHash)
    } else if path == text::path_bcrypt_verify() {
        Some(Operation::BcryptVerify)
    } else {
        None
    }
}

/// Resolves a method and path to an operation; `None` means the route is not
/// recognized and the request is rejected before reaching any operation.
pub fn route(m: HttpMethod, path: &[u8]) -> (r: Option<Operation>)
    ensures
        r == spec_route(m, path@),
{
    match m {
        HttpMethod::Post => {
            if bytes_eq(path, text::path_argon2_hash_vec().as_slice()) {
                Some(Operation::Argon2Hash)
            } else if bytes_eq(path, text::path_argon2_verify_vec().as_slice()) {
                Some(Operation::Argon2Verify)
            } else if bytes_eq(path, text::path_bcrypt_hash_vec().as_slice()) {
                Some(Operation::BcryptHash)
            } else if bytes_eq(path, text::path_bcrypt_verify_vec().as_slice()) {
                Some(Operation::BcryptVerify)
            } else {
                None
            }
        },
        _ => None,
    }
}

} // verus!
