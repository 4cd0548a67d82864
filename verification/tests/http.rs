//! End-to-end behaviour through `handle`: routing, error shaping, and the
//! full hash-then-verify scenario over JSON bodies.
use pwhash::handle;
use pwhash::route::HttpMethod;

fn post(path: &[u8], body: &[u8]) -> (u16, Vec<u8>) {
    let reply = handle(HttpMethod::Post, path, body);
    (reply.status, reply.body)
}

fn extract_hash(body: &[u8]) -> String {
    let v: serde_json::Value = serde_json::from_slice(body).unwrap();
    v.get("hash").unwrap().as_str().unwrap().to_string()
}

#[test]
fn get_is_not_routed() {
    let reply = handle(HttpMethod::Get, b"/argon2/hash", b"{\"password\":\"x\"}");
    assert_eq!(reply.status, 404);
    assert_eq!(reply.body, b"Not found.".to_vec());
}

#[test]
fn unknown_path_is_not_routed() {
    let (status, body) = post(b"/unknown", b"{\"password\":\"x\"}");
    assert_eq!(status, 404);
    assert_eq!(body, b"Not found.".to_vec());
}

#[test]
fn empty_body_is_bad_request_everywhere() {
    for path in [
        b"/argon2/hash".as_slice(),
        b"/argon2/verify".as_slice(),
        b"/bcrypt/hash".as_slice(),
        b"/bcrypt/verify".as_slice(),
    ] {
        let (status, body) = post(path, b"");
        assert_eq!(status, 400);
        assert_eq!(body, b"Bad request.".to_vec());
    }
}

#[test]
fn non_json_body_is_bad_request_everywhere() {
    for path in [
        b"/argon2/hash".as_slice(),
        b"/argon2/verify".as_slice(),
        b"/bcrypt/hash".as_slice(),
        b"/bcrypt/verify".as_slice(),
    ] {
        let (status, body) = post(path, b"this is not json");
        assert_eq!(status, 400);
        assert_eq!(body, b"Bad request.".to_vec());
    }
}

#[test]
fn missing_password_is_bad_request_everywhere() {
    for path in [
        b"/argon2/hash".as_slice(),
        b"/argon2/verify".as_slice(),
        b"/bcrypt/hash".as_slice(),
        b"/bcrypt/verify".as_slice(),
    ] {
        let (status, body) = post(path, b"{\"options\":null}");
        assert_eq!(status, 400);
        assert_eq!(body, b"Bad request.".to_vec());
    }
}

#[test]
fn bcrypt_hash_then_verify_scenario() {
    let (status, body) = post(b"/bcrypt/hash", b"{\"password\":\"correct horse\"}");
    assert_eq!(status, 200);
    let hash = extract_hash(&body);
    assert!(hash.starts_with("$2b$"));

    let verify_body = format!("{{\"password\":\"correct horse\",\"hash\":\"{}\"}}", hash);
    let (status, body) = post(b"/bcrypt/verify", verify_body.as_bytes());
    assert_eq!(status, 200);
    assert_eq!(body, b"{\"result\":true}".to_vec());

    let wrong_body = format!("{{\"password\":\"wrong\",\"hash\":\"{}\"}}", hash);
    let (status, body) = post(b"/bcrypt/verify", wrong_body.as_bytes());
    assert_eq!(status, 200);
    assert_eq!(body, b"{\"result\":false}".to_vec());
}

#[test]
fn argon2_hash_then_verify_scenario() {
    let body_in = b"{\"password\":\"correct horse\",\"options\":{\"time_cost\":1,\"memory_cost\":16,\"parallelism\":1}}";
    let (status, body) = post(b"/argon2/hash", body_in);
    assert_eq!(status, 200);
    let hash = extract_hash(&body);
    assert!(hash.starts_with("$argon2id$"));

    let verify_body = format!("{{\"password\":\"correct horse\",\"hash\":\"{}\"}}", hash);
    let (status, body) = post(b"/argon2/verify", verify_body.as_bytes());
    assert_eq!(status, 200);
    assert_eq!(body, b"{\"result\":true}".to_vec());

    let wrong_body = format!("{{\"password\":\"nope\",\"hash\":\"{}\"}}", hash);
    let (status, body) = post(b"/argon2/verify", wrong_body.as_bytes());
    assert_eq!(status, 200);
    assert_eq!(body, b"{\"result\":false}".to_vec());
}

#[test]
fn hash_response_matches_json_encoding() {
    let (status, body) = post(b"/bcrypt/hash", b"{\"password\":\"x\",\"options\":{\"work_factor\":4}}");
    assert_eq!(status, 200);
    // the response body is exactly what the JSON encoder would produce
    let v: serde_json::Value = serde_json::from_slice(&body).unwrap();
    let hash = v.get("hash").unwrap().as_str().unwrap();
    let reencoded = format!("{{\"hash\":\"{}\"}}", hash);
    assert_eq!(body, reencoded.into_bytes());
}

#[test]
fn argon2_invalid_options_through_endpoint() {
    let body_in = b"{\"password\":\"x\",\"options\":{\"time_cost\":1,\"memory_cost\":8,\"parallelism\":2}}";
    let (status, body) = post(b"/argon2/hash", body_in);
    assert_eq!(status, 400);
    assert_eq!(body, b"Invalid option for specified hash algorithm.".to_vec());
}

#[test]
fn argon2_partial_options_is_bad_request() {
    let body_in = b"{\"password\":\"x\",\"options\":{\"time_cost\":1}}";
    let (status, body) = post(b"/argon2/hash", body_in);
    assert_eq!(status, 400);
    assert_eq!(body, b"Bad request.".to_vec());
}

#[test]
fn bcrypt_out_of_range_cost_through_endpoint() {
    let body_in = b"{\"password\":\"x\",\"options\":{\"work_factor\":99}}";
    let (status, body) = post(b"/bcrypt/hash", body_in);
    assert_eq!(status, 500);
    assert_eq!(body, b"Hash failed.".to_vec());
}

#[test]
fn argon2_verify_malformed_hash_through_endpoint() {
    let body_in = b"{\"password\":\"x\",\"hash\":\"no dollar signs here\"}";
    let (status, body) = post(b"/argon2/verify", body_in);
    assert_eq!(status, 400);
    assert_eq!(body, b"Invalid hash".to_vec());
}

#[test]
fn bcrypt_verify_malformed_hash_through_endpoint() {
    let body_in = b"{\"password\":\"x\",\"hash\":\"garbage\"}";
    let (status, body) = post(b"/bcrypt/verify", body_in);
    assert_eq!(status, 500);
    assert_eq!(body, b"Verification failed.".to_vec());
}

#[test]
fn options_null_uses_defaults() {
    let (status, body) = post(b"/bcrypt/hash", b"{\"password\":\"x\",\"options\":null}");
    assert_eq!(status, 200);
    let hash = extract_hash(&body);
    assert!(hash.starts_with("$2b$12$"));
}
