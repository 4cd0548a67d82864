//! The response serializer: exact bodies, escaping parity with the JSON
//! encoder, and the fixed error replies.
use pwhash::Error;
use pwhash::respond::hash_response_body;
use pwhash::respond::verify_response_body;

#[test]
fn verify_bodies_are_exact() {
    assert_eq!(verify_response_body(true), b"{\"result\":true}".to_vec());
    assert_eq!(verify_response_body(false), b"{\"result\":false}".to_vec());
}

#[test]
fn hash_body_wraps_the_digest() {
    assert_eq!(
        hash_response_body(b"$2b$04$abc"),
        b"{\"hash\":\"$2b$04$abc\"}".to_vec()
    );
}

#[test]
fn hash_body_escaping_matches_the_json_encoder() {
    for s in ["plain", "with \"quotes\"", "back\\slash", "ctl\u{1}\u{8}\t\n\u{c}\r\u{1f}", ""] {
        let expected = format!("{{\"hash\":{}}}", serde_json::to_string(s).unwrap());
        assert_eq!(
            hash_response_body(s.as_bytes()),
            expected.into_bytes(),
            "{}",
            s
        );
    }
}

#[test]
fn error_replies_are_fixed() {
    let cases = [
        (Error::InvalidRoute, 404, "Not found."),
        (Error::BadRequest, 400, "Bad request."),
        (Error::InternalServerError, 500, "Internal server error."),
        (Error::InvalidHashOptions, 400, "Invalid option for specified hash algorithm."),
        (Error::HashFailed, 500, "Hash failed."),
        (Error::InvalidPasswordHash, 400, "Invalid hash"),
        (Error::VerifyFailed, 500, "Verification failed."),
    ];
    for (e, status, msg) in cases {
        let reply = e.to_response();
        assert_eq!(reply.status, status);
        assert_eq!(reply.body, msg.as_bytes().to_vec());
    }
}
