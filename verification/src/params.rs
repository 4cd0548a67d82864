//! Validation of algorithm cost parameters and the published defaults.
use vstd::prelude::*;

use crate::text;
use crate::types::Argon2HashOptions;
use crate::types::BcryptHashOptions;
use crate::util::dec_digits;

verus! {

/// Argon2's published default memory cost, in KiB blocks (19 MiB).
pub const ARGON2_DEFAULT_M_COST: u32 = 19456;

/// Argon2's published default iteration count.
pub const ARGON2_DEFAULT_T_COST: u32 = 2;

/// Argon2's published default degree of parallelism.
pub const ARGON2_DEFAULT_P_COST: u32 = 1;

/// Bcrypt's published default cost.
pub const BCRYPT_DEFAULT_COST: u32 = 12;

/// The Argon2 parameter tuples the primitive accepts, mirroring
/// `argon2::Params::new` with no explicit output length: the memory cost must
/// cover at least eight blocks per lane, the iteration count must be
/// positive, and the parallelism must be between 1 and 2^24 - 1.
pub open spec fn argon2_params_ok(m_cost: u32, t_cost: u32, p_cost: u32) -> bool {
    &&& m_cost >= 8
    &&& m_cost >= 8 * p_cost
    &&& t_cost >= 1
    &&& 1 <= p_cost <= 0xFFFFFF
}

/// The option tuples accepted for an Argon2 hash request.
pub open spec fn argon2_options_ok(o: Argon2HashOptions) -> bool {
    argon2_params_ok(o.memory_cost, o.time_cost, o.parallelism)
}

/// The prefix of an Argon2id digest produced with the given parameters:
/// `$argon2id$v=19$m=<m>,t=<t>,p=<p>$`, the self-describing encoding that
/// later verification reads its parameters back from.
pub open spec fn argon2_params_prefix(m_cost: u32, t_cost: u32, p_cost: u32) -> Seq<u8> {
    text::argon2id_m_prefix() + dec_digits(m_cost as int) + text::t_cost_infix() + dec_digits(
        t_cost as int,
    ) + text::p_cost_infix() + dec_digits(p_cost as int) + seq![36u8]
}

/// The digest prefix an Argon2 hash with these options must produce: the
/// requested tuple, or the published defaults when options are absent.
pub open spec fn argon2_effective_prefix(options: Option<Argon2HashOptions>) -> Seq<u8> {
    match options {
        Some(o) => argon2_params_prefix(o.memory_cost, o.time_cost, o.parallelism),
        None => argon2_params_prefix(
            ARGON2_DEFAULT_M_COST,
            ARGON2_DEFAULT_T_COST,
            ARGON2_DEFAULT_P_COST,
        ),
    }
}

/// The cost a bcrypt hash with these options embeds: the requested work
/// factor, or the published default when options are absent.
pub open spec fn bcrypt_effective_cost(options: Option<BcryptHashOptions>) -> u32 {
    match options {
        Some(o) => o.work_factor,
        None => BCRYPT_DEFAULT_COST,
    }
}

/// Decides whether an Argon2 option tuple is within the primitive's accepted
/// ranges; invalid tuples are rejected before any hashing is attempted.
pub fn argon2_options_valid(o: &Argon2HashOptions) -> (r: bool)
    ensures
        r == argon2_options_ok(*o),
{
    o.memory_cost >= 8 && (o.memory_cost as u64) >= 8 * (o.parallelism as u64) && o.time_cost >= 1
        && 1 <= o.parallelism && o.parallelism <= 0xFFFFFF
}

} // verus!
