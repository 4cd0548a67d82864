//! The request-body decoder: JSON corner cases, escapes, duplicate and
//! unknown members, number bounds, nesting depth, and UTF-8 handling.
use pwhash::body::parse_argon2_hash_request;
use pwhash::body::parse_bcrypt_hash_request;
use pwhash::body::parse_verify_request;

#[test]
fn plain_verify_request() {
    let req = parse_verify_request(b"{\"password\":\"pw\",\"hash\":\"$2b$x\"}").unwrap();
    assert_eq!(req.password, b"pw".to_vec());
    assert_eq!(req.hash, b"$2b$x".to_vec());
}

#[test]
fn whitespace_is_insignificant() {
    let req = parse_verify_request(b" \t\r\n{ \"password\" : \"pw\" , \"hash\" : \"h\" } \n").unwrap();
    assert_eq!(req.password, b"pw".to_vec());
    assert_eq!(req.hash, b"h".to_vec());
}

#[test]
fn field_order_does_not_matter() {
    let req = parse_verify_request(b"{\"hash\":\"h\",\"password\":\"pw\"}").unwrap();
    assert_eq!(req.password, b"pw".to_vec());
    assert_eq!(req.hash, b"h".to_vec());
}

#[test]
fn string_escapes_are_decoded() {
    let req = parse_verify_request(
        b"{\"password\":\"a\\\"b\\\\c\\/d\\b\\t\\n\\f\\r\",\"hash\":\"h\"}",
    )
    .unwrap();
    assert_eq!(req.password, b"a\"b\\c/d\x08\t\n\x0c\r".to_vec());
}

#[test]
fn unicode_escapes_are_decoded_to_utf8() {
    let req = parse_verify_request(b"{\"password\":\"\\u0041\\u00e9\\u20ac\",\"hash\":\"h\"}")
        .unwrap();
    assert_eq!(req.password, "A\u{e9}\u{20ac}".as_bytes().to_vec());
}

#[test]
fn surrogate_pairs_are_decoded() {
    let req = parse_verify_request(b"{\"password\":\"\\uD83D\\uDE00\",\"hash\":\"h\"}").unwrap();
    assert_eq!(req.password, "\u{1F600}".as_bytes().to_vec());
}

#[test]
fn lone_surrogate_is_rejected() {
    assert!(parse_verify_request(b"{\"password\":\"\\uD83D\",\"hash\":\"h\"}").is_none());
    assert!(parse_verify_request(b"{\"password\":\"\\uDE00\",\"hash\":\"h\"}").is_none());
}

#[test]
fn raw_utf8_passes_through() {
    let body = "{\"password\":\"caf\u{e9}\",\"hash\":\"h\"}".as_bytes();
    let req = parse_verify_request(body).unwrap();
    assert_eq!(req.password, "caf\u{e9}".as_bytes().to_vec());
}

#[test]
fn invalid_utf8_in_string_is_rejected() {
    let mut body = b"{\"password\":\"".to_vec();
    body.push(0xff);
    body.extend_from_slice(b"\",\"hash\":\"h\"}");
    assert!(parse_verify_request(&body).is_none());
}

#[test]
fn unescaped_control_character_is_rejected() {
    assert!(parse_verify_request(b"{\"password\":\"a\x01b\",\"hash\":\"h\"}").is_none());
}

#[test]
fn duplicate_member_is_rejected() {
    assert!(parse_verify_request(b"{\"password\":\"a\",\"password\":\"b\",\"hash\":\"h\"}")
        .is_none());
    assert!(
        parse_argon2_hash_request(b"{\"password\":\"a\",\"options\":null,\"options\":null}")
            .is_none()
    );
}

#[test]
fn unknown_members_are_skipped() {
    let body = b"{\"password\":\"pw\",\"extra\":[1,2.5,{\"x\":true},\"s\",null,-3e2],\"hash\":\"h\"}";
    let req = parse_verify_request(body).unwrap();
    assert_eq!(req.password, b"pw".to_vec());
}

#[test]
fn missing_required_member_is_rejected() {
    assert!(parse_verify_request(b"{\"password\":\"pw\"}").is_none());
    assert!(parse_verify_request(b"{\"hash\":\"h\"}").is_none());
    assert!(parse_argon2_hash_request(b"{}").is_none());
}

#[test]
fn trailing_content_is_rejected() {
    assert!(parse_verify_request(b"{\"password\":\"a\",\"hash\":\"h\"} x").is_none());
    assert!(parse_verify_request(b"{\"password\":\"a\",\"hash\":\"h\"}{}").is_none());
}

#[test]
fn top_level_must_be_an_object() {
    assert!(parse_verify_request(b"[]").is_none());
    assert!(parse_verify_request(b"\"password\"").is_none());
    assert!(parse_verify_request(b"42").is_none());
}

#[test]
fn argon2_options_are_decoded() {
    let body = b"{\"password\":\"p\",\"options\":{\"time_cost\":2,\"memory_cost\":64,\"parallelism\":3}}";
    let req = parse_argon2_hash_request(body).unwrap();
    let opts = req.options.unwrap();
    assert_eq!(opts.time_cost, 2);
    assert_eq!(opts.memory_cost, 64);
    assert_eq!(opts.parallelism, 3);
}

#[test]
fn argon2_options_null_and_absent_mean_defaults() {
    let req = parse_argon2_hash_request(b"{\"password\":\"p\",\"options\":null}").unwrap();
    assert!(req.options.is_none());
    let req = parse_argon2_hash_request(b"{\"password\":\"p\"}").unwrap();
    assert!(req.options.is_none());
}

#[test]
fn argon2_partial_options_are_rejected() {
    let body = b"{\"password\":\"p\",\"options\":{\"time_cost\":2,\"memory_cost\":64}}";
    assert!(parse_argon2_hash_request(body).is_none());
}

#[test]
fn bcrypt_options_are_decoded() {
    let body = b"{\"password\":\"p\",\"options\":{\"work_factor\":10}}";
    let req = parse_bcrypt_hash_request(body).unwrap();
    assert_eq!(req.options.unwrap().work_factor, 10);
}

#[test]
fn option_numbers_must_be_plain_u32() {
    for bad in [
        "{\"password\":\"p\",\"options\":{\"work_factor\":-1}}",
        "{\"password\":\"p\",\"options\":{\"work_factor\":1.5}}",
        "{\"password\":\"p\",\"options\":{\"work_factor\":1e2}}",
        "{\"password\":\"p\",\"options\":{\"work_factor\":010}}",
        "{\"password\":\"p\",\"options\":{\"work_factor\":4294967296}}",
        "{\"password\":\"p\",\"options\":{\"work_factor\":\"10\"}}",
    ] {
        assert!(parse_bcrypt_hash_request(bad.as_bytes()).is_none(), "{}", bad);
    }
    let body = b"{\"password\":\"p\",\"options\":{\"work_factor\":4294967295}}";
    let req = parse_bcrypt_hash_request(body).unwrap();
    assert_eq!(req.options.unwrap().work_factor, u32::MAX);
}

#[test]
fn unknown_members_inside_options_are_skipped() {
    let body = b"{\"password\":\"p\",\"options\":{\"work_factor\":4,\"note\":{\"a\":[]}}}";
    let req = parse_bcrypt_hash_request(body).unwrap();
    assert_eq!(req.options.unwrap().work_factor, 4);
}

#[test]
fn deep_nesting_in_ignored_member_is_limited() {
    let mut deep = String::from("{\"password\":\"p\",\"junk\":");
    for _ in 0..200 {
        deep.push('[');
    }
    for _ in 0..200 {
        deep.push(']');
    }
    deep.push_str(",\"hash\":\"h\"}");
    assert!(parse_verify_request(deep.as_bytes()).is_none());

    let mut modest = String::from("{\"password\":\"p\",\"junk\":");
    for _ in 0..20 {
        modest.push('[');
    }
    for _ in 0..20 {
        modest.push(']');
    }
    modest.push_str(",\"hash\":\"h\"}");
    assert!(parse_verify_request(modest.as_bytes()).is_some());
}

#[test]
fn empty_password_is_legal() {
    let req = parse_verify_request(b"{\"password\":\"\",\"hash\":\"h\"}").unwrap();
    assert_eq!(req.password, Vec::<u8>::new());
}
