//! The error taxonomy and its mapping to transport-level replies.
//!
//! Every internal failure is classified as exactly one `Error` kind, and each
//! kind maps to a fixed status code and a fixed, non-sensitive message.
use vstd::prelude::*;

use crate::text;

verus! {

/// The classified failure kinds of the service.
#[derive(Clone, Copy, PartialEq, Eq, Structural, Debug)]
pub enum Error {
    /// The method/path pair names no operation.
    InvalidRoute,
    /// The request body is missing, malformed, or not decodable.
    BadRequest,
    /// The response payload could not be serialized. The kind is part of the
    /// taxonomy, but response serialization here is a verified total
    /// function, so no input reaches it.
    InternalServerError,
    /// The Argon2 parameter tuple was rejected.
    InvalidHashOptions,
    /// The primitive failed to produce a hash.
    HashFailed,
    /// The digest string handed to Argon2 verification is not parseable.
    InvalidPasswordHash,
    /// The primitive failed during verification for a reason other than a
    /// mismatch.
    VerifyFailed,
}

/// A transport-level reply: a status code and a body.
pub struct Reply {
    pub status: u16,
    pub body: Vec<u8>,
}

/// The HTTP status code of each error kind.
pub open spec fn spec_status(e: Error) -> u16 {
    match e {
        Error::InvalidRoute => 404,
        Error::BadRequest => 400,
        Error::InternalServerError => 500,
        Error::InvalidHashOptions => 400,
        Error::HashFailed => 500,
        Error::InvalidPasswordHash => 400,
        Error::VerifyFailed => 500,
    }
}

/// The fixed message body of each error kind.
pub open spec fn spec_message(e: Error) -> Seq<u8> {
    match e {
        Error::InvalidRoute => text::msg_not_found(),
        Error::BadRequest => text::msg_bad_request(),
        Error::InternalServerError => text::msg_internal_server_error(),
        Error::InvalidHashOptions => text::msg_invalid_hash_options(),
        Error::HashFailed => text::msg_hash_failed(),
        Error::InvalidPasswordHash => text::msg_invalid_password_hash(),
        Error::VerifyFailed => text::msg_verify_failed(),
    }
}

impl Error {
    /// The reply an error is reported as: its status code and static message.
    pub fn to_response(&self) -> (r: Reply)
        ensures
            r.status == spec_status(*self),
            r.body@ == spec_message(*self),
    {
        let status: u16 = match self {
            Error::InvalidRoute => 404,
            Error::BadRequest => 400,
            Error::InternalServerError => 500,
            Error::InvalidHashOptions => 400,
            Error::HashFailed => 500,
            Error::InvalidPasswordHash => 400,
            Error::VerifyFailed => 500,
        };
        let body: Vec<u8> = match self {
            Error::InvalidRoute => text::msg_not_found_vec(),
            Error::BadRequest => text::msg_bad_request_vec(),
            Error::InternalServerError => text::msg_internal_server_error_vec(),
            Error::InvalidHashOptions => text::msg_invalid_hash_options_vec(),
            Error::HashFailed => text::msg_hash_failed_vec(),
            Error::InvalidPasswordHash => text::msg_invalid_password_hash_vec(),
            Error::VerifyFailed => text::msg_verify_failed_vec(),
        };
        Reply { status, body }
    }
}

} // verus!
