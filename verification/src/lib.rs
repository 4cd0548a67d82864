//! A password-hashing service core: validates request options, invokes the
//! Argon2id or bcrypt primitive, and classifies every failure into a fixed
//! error taxonomy with transport-level status codes.
use vstd::prelude::*;

pub mod body;
pub mod error;
pub mod handler;
pub mod json;
pub mod laws;
pub mod ops;
pub mod params;
pub mod primitives;
pub mod respond;
pub mod route;
pub mod text;
pub mod types;
pub mod util;

verus! {

pub use crate::error::Error;
pub use crate::error::Reply;
pub use crate::handler::argon2id_hash_handler;
pub use crate::handler::argon2id_verify_handler;
pub use crate::handler::bcrypt_hash_handler;
pub use crate::handler::bcrypt_verify_handler;
pub use crate::handler::handle;
pub use crate::ops::argon2id_hash;
pub use crate::ops::argon2id_verify;
pub use crate::ops::bcrypt_hash;
pub use crate::ops::bcrypt_verify;
pub use crate::route::HttpMethod;
pub use crate::route::Operation;
pub use crate::types::Argon2HashOptions;
pub use crate::types::BcryptHashOptions;
pub use crate::types::HashRequest;
pub use crate::types::HashResponse;
pub use crate::types::VerifyRequest;
pub use crate::types::VerifyResponse;

} // verus!
