//! Operation-level behaviour: round trips, salt freshness, mismatches,
//! cross-algorithm isolation, and option validation.
use pwhash::Argon2HashOptions;
use pwhash::BcryptHashOptions;
use pwhash::Error;
use pwhash::VerifyRequest;
use pwhash::argon2id_hash;
use pwhash::argon2id_verify;
use pwhash::bcrypt_hash;
use pwhash::bcrypt_verify;

fn small_argon2_options() -> Argon2HashOptions {
    Argon2HashOptions { time_cost: 1, memory_cost: 16, parallelism: 1 }
}

fn fast_bcrypt_options() -> BcryptHashOptions {
    BcryptHashOptions { work_factor: 4 }
}

#[test]
fn argon2_round_trip_with_options() {
    let digest = argon2id_hash(b"hunter2", Some(small_argon2_options())).unwrap();
    assert!(digest.starts_with(b"$argon2id$"));
    let req = VerifyRequest { password: b"hunter2".to_vec(), hash: digest };
    assert_eq!(argon2id_verify(&req), Ok(true));
}

#[test]
fn argon2_round_trip_with_defaults() {
    let digest = argon2id_hash(b"hunter2", None).unwrap();
    assert!(digest.starts_with(b"$argon2id$"));
    let req = VerifyRequest { password: b"hunter2".to_vec(), hash: digest };
    assert_eq!(argon2id_verify(&req), Ok(true));
}

#[test]
fn argon2_round_trip_empty_password() {
    let digest = argon2id_hash(b"", Some(small_argon2_options())).unwrap();
    let req = VerifyRequest { password: Vec::new(), hash: digest };
    assert_eq!(argon2id_verify(&req), Ok(true));
}

#[test]
fn bcrypt_round_trip_with_options() {
    let digest = bcrypt_hash(b"hunter2", Some(fast_bcrypt_options())).unwrap();
    assert!(digest.starts_with(b"$2b$04$"));
    assert_eq!(digest.len(), 60);
    let req = VerifyRequest { password: b"hunter2".to_vec(), hash: digest };
    assert_eq!(bcrypt_verify(&req), Ok(true));
}

#[test]
fn bcrypt_round_trip_with_defaults() {
    let digest = bcrypt_hash(b"hunter2", None).unwrap();
    assert!(digest.starts_with(b"$2b$12$"));
    let req = VerifyRequest { password: b"hunter2".to_vec(), hash: digest };
    assert_eq!(bcrypt_verify(&req), Ok(true));
}

#[test]
fn argon2_salts_are_fresh() {
    let a = argon2id_hash(b"same password", Some(small_argon2_options())).unwrap();
    let b = argon2id_hash(b"same password", Some(small_argon2_options())).unwrap();
    assert_ne!(a, b);
}

#[test]
fn bcrypt_salts_are_fresh() {
    let a = bcrypt_hash(b"same password", Some(fast_bcrypt_options())).unwrap();
    let b = bcrypt_hash(b"same password", Some(fast_bcrypt_options())).unwrap();
    assert_ne!(a, b);
}

#[test]
fn argon2_wrong_password_is_false_not_error() {
    let digest = argon2id_hash(b"right", Some(small_argon2_options())).unwrap();
    let req = VerifyRequest { password: b"wrong".to_vec(), hash: digest };
    assert_eq!(argon2id_verify(&req), Ok(false));
}

#[test]
fn bcrypt_wrong_password_is_false_not_error() {
    let digest = bcrypt_hash(b"right", Some(fast_bcrypt_options())).unwrap();
    let req = VerifyRequest { password: b"wrong".to_vec(), hash: digest };
    assert_eq!(bcrypt_verify(&req), Ok(false));
}

#[test]
fn argon2_rejects_bcrypt_digest() {
    let digest = bcrypt_hash(b"pw", Some(fast_bcrypt_options())).unwrap();
    let req = VerifyRequest { password: b"pw".to_vec(), hash: digest };
    assert_eq!(argon2id_verify(&req), Err(Error::InvalidPasswordHash));
}

#[test]
fn bcrypt_rejects_argon2_digest() {
    let digest = argon2id_hash(b"pw", Some(small_argon2_options())).unwrap();
    let req = VerifyRequest { password: b"pw".to_vec(), hash: digest };
    assert_eq!(bcrypt_verify(&req), Err(Error::VerifyFailed));
}

#[test]
fn argon2_memory_below_lanes_is_invalid_options() {
    // eight blocks are required per lane: 8 KiB of memory cannot cover two
    let opts = Argon2HashOptions { time_cost: 1, memory_cost: 8, parallelism: 2 };
    assert_eq!(argon2id_hash(b"pw", Some(opts)), Err(Error::InvalidHashOptions));
}

#[test]
fn argon2_zero_time_cost_is_invalid_options() {
    let opts = Argon2HashOptions { time_cost: 0, memory_cost: 16, parallelism: 1 };
    assert_eq!(argon2id_hash(b"pw", Some(opts)), Err(Error::InvalidHashOptions));
}

#[test]
fn argon2_zero_parallelism_is_invalid_options() {
    let opts = Argon2HashOptions { time_cost: 1, memory_cost: 16, parallelism: 0 };
    assert_eq!(argon2id_hash(b"pw", Some(opts)), Err(Error::InvalidHashOptions));
}

#[test]
fn bcrypt_cost_out_of_range_is_hash_failed() {
    let low = BcryptHashOptions { work_factor: 3 };
    assert_eq!(bcrypt_hash(b"pw", Some(low)), Err(Error::HashFailed));
    let high = BcryptHashOptions { work_factor: 32 };
    assert_eq!(bcrypt_hash(b"pw", Some(high)), Err(Error::HashFailed));
}

#[test]
fn argon2_garbage_hash_is_invalid_password_hash() {
    let req = VerifyRequest { password: b"pw".to_vec(), hash: b"not a digest".to_vec() };
    assert_eq!(argon2id_verify(&req), Err(Error::InvalidPasswordHash));
    let req = VerifyRequest { password: b"pw".to_vec(), hash: vec![0xff, 0xfe] };
    assert_eq!(argon2id_verify(&req), Err(Error::InvalidPasswordHash));
}

#[test]
fn bcrypt_garbage_hash_is_verify_failed() {
    let req = VerifyRequest { password: b"pw".to_vec(), hash: b"not a digest".to_vec() };
    assert_eq!(bcrypt_verify(&req), Err(Error::VerifyFailed));
}

#[test]
fn argon2_digest_embeds_requested_parameters() {
    let opts = Argon2HashOptions { time_cost: 3, memory_cost: 32, parallelism: 2 };
    let digest = argon2id_hash(b"pw", Some(opts)).unwrap();
    assert!(digest.starts_with(b"$argon2id$v=19$m=32,t=3,p=2$"));
}

#[test]
fn argon2_digest_embeds_default_parameters() {
    let digest = argon2id_hash(b"pw", None).unwrap();
    assert!(digest.starts_with(b"$argon2id$v=19$m=19456,t=2,p=1$"));
}

#[test]
fn bcrypt_digest_embeds_the_cost() {
    let digest = bcrypt_hash(b"pw", Some(BcryptHashOptions { work_factor: 10 })).unwrap();
    assert!(digest.starts_with(b"$2b$10$"));
}

#[test]
fn digest_is_not_the_password() {
    let digest = argon2id_hash(b"secret input", Some(small_argon2_options())).unwrap();
    assert_ne!(digest, b"secret input".to_vec());
    let digest = bcrypt_hash(b"secret input", Some(fast_bcrypt_options())).unwrap();
    assert_ne!(digest, b"secret input".to_vec());
}
