//! Request and response value objects for the hashing service.
//!
//! Every body is carried as raw bytes: a password is an arbitrary byte string
//! once the request body has been decoded, and a digest string is an ASCII
//! byte string produced by one of the two algorithms.
use vstd::prelude::*;

verus! {

/// A request to hash a password, with optional algorithm-specific options.
/// When `options` is absent the algorithm's published defaults apply.
pub struct HashRequest<T> {
    pub password: Vec<u8>,
    pub options: Option<T>,
}

/// A successful hash operation's payload: the self-describing digest string.
/// The response serializer emits exactly this shape, `{"hash":"..."}`.
pub struct HashResponse {
    pub hash: Vec<u8>,
}

/// Argon2id cost parameters; all three fields are required when present.
#[derive(Clone, Copy, PartialEq, Eq, Structural, Debug)]
pub struct Argon2HashOptions {
    pub time_cost: u32,
    pub memory_cost: u32,
    pub parallelism: u32,
}

/// Bcrypt cost parameter.
#[derive(Clone, Copy, PartialEq, Eq, Structural, Debug)]
pub struct BcryptHashOptions {
    pub work_factor: u32,
}

/// A request to verify a password against a previously produced digest.
pub struct VerifyRequest {
    pub password: Vec<u8>,
    pub hash: Vec<u8>,
}

/// A successful verify operation's payload: whether the password matched.
/// The response serializer emits exactly this shape, `{"result":...}`.
pub struct VerifyResponse {
    pub result: bool,
}

} // verus!
