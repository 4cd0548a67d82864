//! Byte-level constants: route paths, error messages, JSON framing and
//! digest prefixes, each as a spec sequence with a matching executable value.
use vstd::prelude::*;

verus! {

/// The byte sequence of `/argon2/hash`.
pub open spec fn path_argon2_hash() -> Seq<u8> {
    seq![47u8, 97u8, 114u8, 103u8, 111u8, 110u8, 50u8, 47u8, 104u8, 97u8, 115u8, 104u8]
}

/// The byte sequence of `/argon2/verify`.
pub open spec fn path_argon2_verify() -> Seq<u8> {
    seq![47u8, 97u8, 114u8, 103u8, 111u8, 110u8, 50u8, 47u8, 118u8, 101u8, 114u8, 105u8, 102u8, 121u8]
}

/// The byte sequence of `/bcrypt/hash`.
pub open spec fn path_bcrypt_hash() -> Seq<u8> {
    seq![47u8, 98u8, 99u8, 114u8, 121u8, 112u8, 116u8, 47u8, 104u8, 97u8, 115u8, 104u8]
}

/// The byte sequence of `/bcrypt/verify`.
pub open spec fn path_bcrypt_verify() -> Seq<u8> {
    seq![47u8, 98u8, 99u8, 114u8, 121u8, 112u8, 116u8, 47u8, 118u8, 101u8, 114u8, 105u8, 102u8, 121u8]
}

/// The byte sequence of `Not found.`.
pub open spec fn msg_not_found() -> Seq<u8> {
    seq![78u8, 111u8, 116u8, 32u8, 102u8, 111u8, 117u8, 110u8, 100u8, 46u8]
}

/// The byte sequence of `Bad request.`.
pub open spec fn msg_bad_request() -> Seq<u8> {
    seq![66u8, 97u8, 100u8, 32u8, 114u8, 101u8, 113u8, 117u8, 101u8, 115u8, 116u8, 46u8]
}

/// The byte sequence of `Internal server error.`.
pub open spec fn msg_internal_server_error() -> Seq<u8> {
    seq![73u8, 110u8, 116u8, 101u8, 114u8, 110u8, 97u8, 108u8, 32u8, 115u8, 101u8, 114u8, 118u8, 101u8, 114u8, 32u8, 101u8, 114u8, 114u8, 111u8, 114u8, 46u8]
}

/// The byte sequence of `Invalid option for specified hash algorithm.`.
pub open spec fn msg_invalid_hash_options() -> Seq<u8> {
    seq![73u8, 110u8, 118u8, 97u8, 108u8, 105u8, 100u8, 32u8, 111u8, 112u8, 116u8, 105u8, 111u8, 110u8, 32u8, 102u8, 111u8, 114u8, 32u8, 115u8, 112u8, 101u8, 99u8, 105u8, 102u8, 105u8, 101u8, 100u8, 32u8, 104u8, 97u8, 115u8, 104u8, 32u8, 97u8, 108u8, 103u8, 111u8, 114u8, 105u8, 116u8, 104u8, 109u8, 46u8]
}

/// The byte sequence of `Hash failed.`.
pub open spec fn msg_hash_failed() -> Seq<u8> {
    seq![72u8, 97u8, 115u8, 104u8, 32u8, 102u8, 97u8, 105u8, 108u8, 101u8, 100u8, 46u8]
}

/// The byte sequence of `Invalid hash`.
pub open spec fn msg_invalid_password_hash() -> Seq<u8> {
    seq![73u8, 110u8, 118u8, 97u8, 108u8, 105u8, 100u8, 32u8, 104u8, 97u8, 115u8, 104u8]
}

/// The byte sequence of `Verification failed.`.
pub open spec fn msg_verify_failed() -> Seq<u8> {
    seq![86u8, 101u8, 114u8, 105u8, 102u8, 105u8, 99u8, 97u8, 116u8, 105u8, 111u8, 110u8, 32u8, 102u8, 97u8, 105u8, 108u8, 101u8, 100u8, 46u8]
}

/// The byte sequence of `password`.
pub open spec fn key_password() -> Seq<u8> {
    seq![112u8, 97u8, 115u8, 115u8, 119u8, 111u8, 114u8, 100u8]
}

/// The byte sequence of `options`.
pub open spec fn key_options() -> Seq<u8> {
    seq![111u8, 112u8, 116u8, 105u8, 111u8, 110u8, 115u8]
}

/// The byte sequence of `time_cost`.
pub open spec fn key_time_cost() -> Seq<u8> {
    seq![116u8, 105u8, 109u8, 101u8, 95u8, 99u8, 111u8, 115u8, 116u8]
}

/// The byte sequence of `memory_cost`.
pub open spec fn key_memory_cost() -> Seq<u8> {
    seq![109u8, 101u8, 109u8, 111u8, 114u8, 121u8, 95u8, 99u8, 111u8, 115u8, 116u8]
}

/// The byte sequence of `parallelism`.
pub open spec fn key_parallelism() -> Seq<u8> {
    seq![112u8, 97u8, 114u8, 97u8, 108u8, 108u8, 101u8, 108u8, 105u8, 115u8, 109u8]
}

/// The byte sequence of `work_factor`.
pub open spec fn key_work_factor() -> Seq<u8> {
    seq![119u8, 111u8, 114u8, 107u8, 95u8, 102u8, 97u8, 99u8, 116u8, 111u8, 114u8]
}

/// The byte sequence of `{\"hash\":\"`.
pub open spec fn hash_body_open() -> Seq<u8> {
    seq![123u8, 34u8, 104u8, 97u8, 115u8, 104u8, 34u8, 58u8, 34u8]
}

/// The byte sequence of `\"}`.
pub open spec fn hash_body_close() -> Seq<u8> {
    seq![34u8, 125u8]
}

/// The byte sequence of `{\"result\":true}`.
pub open spec fn verify_body_true() -> Seq<u8> {
    seq![123u8, 34u8, 114u8, 101u8, 115u8, 117u8, 108u8, 116u8, 34u8, 58u8, 116u8, 114u8, 117u8, 101u8, 125u8]
}

/// The byte sequence of `{\"result\":false}`.
pub open spec fn verify_body_false() -> Seq<u8> {
    seq![123u8, 34u8, 114u8, 101u8, 115u8, 117u8, 108u8, 116u8, 34u8, 58u8, 102u8, 97u8, 108u8, 115u8, 101u8, 125u8]
}

/// The byte sequence of `$argon2id$`.
pub open spec fn argon2id_prefix() -> Seq<u8> {
    seq![36u8, 97u8, 114u8, 103u8, 111u8, 110u8, 50u8, 105u8, 100u8, 36u8]
}

/// The byte sequence of `$2b$`.
pub open spec fn bcrypt_prefix() -> Seq<u8> {
    seq![36u8, 50u8, 98u8, 36u8]
}

pub fn path_argon2_hash_vec() -> (v: Vec<u8>)
    ensures
        v@ == path_argon2_hash(),
{
    let v: Vec<u8> = vec![47u8, 97u8, 114u8, 103u8, 111u8, 110u8, 50u8, 47u8, 104u8, 97u8, 115u8, 104u8];
    proof {
        assert(v@ =~= path_argon2_hash());
    }
    v
}

pub fn path_argon2_verify_vec() -> (v: Vec<u8>)
    ensures
        v@ == path_argon2_verify(),
{
    let v: Vec<u8> = vec![47u8, 97u8, 114u8, 103u8, 111u8, 110u8, 50u8, 47u8, 118u8, 101u8, 114u8, 105u8, 102u8, 121u8];
    proof {
        assert(v@ =~= path_argon2_verify());
    }
    v
}

pub fn path_bcrypt_hash_vec() -> (v: Vec<u8>)
    ensures
        v@ == path_bcrypt_hash(),
{
    let v: Vec<u8> = vec![47u8, 98u8, 99u8, 114u8, 121u8, 112u8, 116u8, 47u8, 104u8, 97u8, 115u8, 104u8];
    proof {
        assert(v@ =~= path_bcrypt_hash());
    }
    v
}

pub fn path_bcrypt_verify_vec() -> (v: Vec<u8>)
    ensures
        v@ == path_bcrypt_verify(),
{
    let v: Vec<u8> = vec![47u8, 98u8, 99u8, 114u8, 121u8, 112u8, 116u8, 47u8, 118u8, 101u8, 114u8, 105u8, 102u8, 121u8];
    proof {
        assert(v@ =~= path_bcrypt_verify());
    }
    v
}

pub fn msg_not_found_vec() -> (v: Vec<u8>)
    ensures
        v@ == msg_not_found(),
{
    let v: Vec<u8> = vec![78u8, 111u8, 116u8, 32u8, 102u8, 111u8, 117u8, 110u8, 100u8, 46u8];
    proof {
        assert(v@ =~= msg_not_found());
    }
    v
}

pub fn msg_bad_request_vec() -> (v: Vec<u8>)
    ensures
        v@ == msg_bad_request(),
{
    let v: Vec<u8> = vec![66u8, 97u8, 100u8, 32u8, 114u8, 101u8, 113u8, 117u8, 101u8, 115u8, 116u8, 46u8];
    proof {
        assert(v@ =~= msg_bad_request());
    }
    v
}

pub fn msg_internal_server_error_vec() -> (v: Vec<u8>)
    ensures
        v@ == msg_internal_server_error(),
{
    let v: Vec<u8> = vec![73u8, 110u8, 116u8, 101u8, 114u8, 110u8, 97u8, 108u8, 32u8, 115u8, 101u8, 114u8, 118u8, 101u8, 114u8, 32u8, 101u8, 114u8, 114u8, 111u8, 114u8, 46u8];
    proof {
        assert(v@ =~= msg_internal_server_error());
    }
    v
}

pub fn msg_invalid_hash_options_vec() -> (v: Vec<u8>)
    ensures
        v@ == msg_invalid_hash_options(),
{
    let v: Vec<u8> = vec![73u8, 110u8, 118u8, 97u8, 108u8, 105u8, 100u8, 32u8, 111u8, 112u8, 116u8, 105u8, 111u8, 110u8, 32u8, 102u8, 111u8, 114u8, 32u8, 115u8, 112u8, 101u8, 99u8, 105u8, 102u8, 105u8, 101u8, 100u8, 32u8, 104u8, 97u8, 115u8, 104u8, 32u8, 97u8, 108u8, 103u8, 111u8, 114u8, 105u8, 116u8, 104u8, 109u8, 46u8];
    proof {
        assert(v@ =~= msg_invalid_hash_options());
    }
    v
}

pub fn msg_hash_failed_vec() -> (v: Vec<u8>)
    ensures
        v@ == msg_hash_failed(),
{
    let v: Vec<u8> = vec![72u8, 97u8, 115u8, 104u8, 32u8, 102u8, 97u8, 105u8, 108u8, 101u8, 100u8, 46u8];
    proof {
        assert(v@ =~= msg_hash_failed());
    }
    v
}

pub fn msg_invalid_password_hash_vec() -> (v: Vec<u8>)
    ensures
        v@ == msg_invalid_password_hash(),
{
    let v: Vec<u8> = vec![73u8, 110u8, 118u8, 97u8, 108u8, 105u8, 100u8, 32u8, 104u8, 97u8, 115u8, 104u8];
    proof {
        assert(v@ =~= msg_invalid_password_hash());
    }
    v
}

pub fn msg_verify_failed_vec() -> (v: Vec<u8>)
    ensures
        v@ == msg_verify_failed(),
{
    let v: Vec<u8> = vec![86u8, 101u8, 114u8, 105u8, 102u8, 105u8, 99u8, 97u8, 116u8, 105u8, 111u8, 110u8, 32u8, 102u8, 97u8, 105u8, 108u8, 101u8, 100u8, 46u8];
    proof {
        assert(v@ =~= msg_verify_failed());
    }
    v
}

pub fn key_password_vec() -> (v: Vec<u8>)
    ensures
        v@ == key_password(),
{
    let v: Vec<u8> = vec![112u8, 97u8, 115u8, 115u8, 119u8, 111u8, 114u8, 100u8];
    proof {
        assert(v@ =~= key_password());
    }
    v
}

pub fn key_options_vec() -> (v: Vec<u8>)
    ensures
        v@ == key_options(),
{
    let v: Vec<u8> = vec![111u8, 112u8, 116u8, 105u8, 111u8, 110u8, 115u8];
    proof {
        assert(v@ =~= key_options());
    }
    v
}

pub fn key_time_cost_vec() -> (v: Vec<u8>)
    ensures
        v@ == key_time_cost(),
{
    let v: Vec<u8> = vec![116u8, 105u8, 109u8, 101u8, 95u8, 99u8, 111u8, 115u8, 116u8];
    proof {
        assert(v@ =~= key_time_cost());
    }
    v
}

pub fn key_memory_cost_vec() -> (v: Vec<u8>)
    ensures
        v@ == key_memory_cost(),
{
    let v: Vec<u8> = vec![109u8, 101u8, 109u8, 111u8, 114u8, 121u8, 95u8, 99u8, 111u8, 115u8, 116u8];
    proof {
        assert(v@ =~= key_memory_cost());
    }
    v
}

pub fn key_parallelism_vec() -> (v: Vec<u8>)
    ensures
        v@ == key_parallelism(),
{
    let v: Vec<u8> = vec![112u8, 97u8, 114u8, 97u8, 108u8, 108u8, 101u8, 108u8, 105u8, 115u8, 109u8];
    proof {
        assert(v@ =~= key_parallelism());
    }
    v
}

pub fn key_work_factor_vec() -> (v: Vec<u8>)
    ensures
        v@ == key_work_factor(),
{
    let v: Vec<u8> = vec![119u8, 111u8, 114u8, 107u8, 95u8, 102u8, 97u8, 99u8, 116u8, 111u8, 114u8];
    proof {
        assert(v@ =~= key_work_factor());
    }
    v
}

pub fn hash_body_open_vec() -> (v: Vec<u8>)
    ensures
        v@ == hash_body_open(),
{
    let v: Vec<u8> = vec![123u8, 34u8, 104u8, 97u8, 115u8, 104u8, 34u8, 58u8, 34u8];
    proof {
        assert(v@ =~= hash_body_open());
    }
    v
}

pub fn hash_body_close_vec() -> (v: Vec<u8>)
    ensures
        v@ == hash_body_close(),
{
    let v: Vec<u8> = vec![34u8, 125u8];
    proof {
        assert(v@ =~= hash_body_close());
    }
    v
}

pub fn verify_body_true_vec() -> (v: Vec<u8>)
    ensures
        v@ == verify_body_true(),
{
    let v: Vec<u8> = vec![123u8, 34u8, 114u8, 101u8, 115u8, 117u8, 108u8, 116u8, 34u8, 58u8, 116u8, 114u8, 117u8, 101u8, 125u8];
    proof {
        assert(v@ =~= verify_body_true());
    }
    v
}

pub fn verify_body_false_vec() -> (v: Vec<u8>)
    ensures
        v@ == verify_body_false(),
{
    let v: Vec<u8> = vec![123u8, 34u8, 114u8, 101u8, 115u8, 117u8, 108u8, 116u8, 34u8, 58u8, 102u8, 97u8, 108u8, 115u8, 101u8, 125u8];
    proof {
        assert(v@ =~= verify_body_false());
    }
    v
}

/// The byte sequence of `hash`.
pub open spec fn key_hash() -> Seq<u8> {
    seq![104u8, 97u8, 115u8, 104u8]
}

pub fn key_hash_vec() -> (v: Vec<u8>)
    ensures
        v@ == key_hash(),
{
    let v: Vec<u8> = vec![104u8, 97u8, 115u8, 104u8];
    proof {
        assert(v@ =~= key_hash());
    }
    v
}

/// The byte sequence of `$argon2id$v=19$m=`.
pub open spec fn argon2id_m_prefix() -> Seq<u8> {
    seq![36u8, 97u8, 114u8, 103u8, 111u8, 110u8, 50u8, 105u8, 100u8, 36u8, 118u8, 61u8, 49u8, 57u8, 36u8, 109u8, 61u8]
}

/// The byte sequence of `,t=`.
pub open spec fn t_cost_infix() -> Seq<u8> {
    seq![44u8, 116u8, 61u8]
}

/// The byte sequence of `,p=`.
pub open spec fn p_cost_infix() -> Seq<u8> {
    seq![44u8, 112u8, 61u8]
}

} // verus!
