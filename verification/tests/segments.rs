//! The encoded segments: compact JSON with the declared key order,
//! base64url without padding, and exact round trips through the decoders.

use jws_segments::JwsClaims;
use jws_segments::JwsHeader;

fn decode_segment(seg: &str) -> String {
    assert!(!seg.contains('='));
    assert!(seg
        .chars()
        .all(|c| c.is_ascii_alphanumeric() || c == '-' || c == '_'));
    let bytes = base64::decode_config(seg, base64::URL_SAFE_NO_PAD).expect("valid base64url");
    String::from_utf8(bytes).expect("valid UTF-8")
}

#[test]
fn minimal_claims_segment_has_exactly_the_present_keys() {
    let mut c = JwsClaims {
        iss: String::from("svc@example.com"),
        scope: None,
        aud: String::from("https://oauth2.example.com/token"),
        exp: None,
        iat: None,
        typ: None,
        sub: None,
    };
    let seg = c.encode().expect("encoding must succeed");
    let json = decode_segment(&seg);
    let v: serde_json::Value = serde_json::from_str(&json).expect("valid JSON");
    let obj = v.as_object().expect("a JSON object");
    let keys: Vec<&str> = obj.keys().map(|k| k.as_str()).collect();
    let mut sorted = keys.clone();
    sorted.sort();
    assert_eq!(sorted, vec!["aud", "exp", "iat", "iss"]);
    assert_eq!(obj["iss"].as_str(), Some("svc@example.com"));
    assert_eq!(
        obj["aud"].as_str(),
        Some("https://oauth2.example.com/token")
    );
    let exp: i64 = obj["exp"].as_i64().expect("a number");
    let iat: i64 = obj["iat"].as_i64().expect("a number");
    assert_eq!(exp - iat, 3600);
}

#[test]
fn claims_json_keeps_the_declared_key_order() {
    let mut c = JwsClaims {
        iss: String::from("i"),
        scope: Some(String::from("a b")),
        aud: String::from("aud"),
        exp: Some(20),
        iat: Some(10),
        typ: Some(String::from("t")),
        sub: Some(String::from("s")),
    };
    let seg = c.encode().expect("encoding must succeed");
    let json = decode_segment(&seg);
    assert_eq!(
        json,
        "{\"iss\":\"i\",\"scope\":\"a b\",\"aud\":\"aud\",\"exp\":20,\"iat\":10,\"typ\":\"t\",\"sub\":\"s\"}"
    );
}

#[test]
fn claims_to_json_is_the_compact_text() {
    let c = JwsClaims {
        iss: String::from("a"),
        scope: None,
        aud: String::from("b"),
        exp: Some(10),
        iat: Some(5),
        typ: None,
        sub: None,
    };
    assert_eq!(c.to_json(), "{\"iss\":\"a\",\"aud\":\"b\",\"exp\":10,\"iat\":5}");
}

#[test]
fn negative_timestamps_are_written_in_base_ten() {
    let c = JwsClaims {
        iss: String::from("a"),
        scope: None,
        aud: String::from("b"),
        exp: Some(10),
        iat: Some(-5),
        typ: None,
        sub: None,
    };
    assert_eq!(c.to_json(), "{\"iss\":\"a\",\"aud\":\"b\",\"exp\":10,\"iat\":-5}");
    let c2 = JwsClaims {
        exp: Some(i64::MIN),
        iat: Some(0),
        ..c
    };
    assert_eq!(
        c2.to_json(),
        "{\"iss\":\"a\",\"aud\":\"b\",\"exp\":-9223372036854775808,\"iat\":0}"
    );
}

#[test]
fn string_fields_are_escaped_as_json_demands() {
    let mut c = JwsClaims {
        iss: String::from("a\"b\\c"),
        scope: None,
        aud: String::from("line\nbreak"),
        exp: Some(2),
        iat: Some(1),
        typ: None,
        sub: None,
    };
    let seg = c.encode().expect("encoding must succeed");
    let json = decode_segment(&seg);
    let v: serde_json::Value = serde_json::from_str(&json).expect("valid JSON");
    assert_eq!(v["iss"].as_str(), Some("a\"b\\c"));
    assert_eq!(v["aud"].as_str(), Some("line\nbreak"));
}

#[test]
fn empty_string_fields_are_kept() {
    let mut c = JwsClaims {
        iss: String::from(""),
        scope: None,
        aud: String::from(""),
        exp: Some(2),
        iat: Some(1),
        typ: None,
        sub: None,
    };
    let seg = c.encode().expect("encoding must succeed");
    let json = decode_segment(&seg);
    assert_eq!(json, "{\"iss\":\"\",\"aud\":\"\",\"exp\":2,\"iat\":1}");
}

#[test]
fn header_segment_is_the_exact_known_encoding() {
    let h = JwsHeader {
        alg: String::from("RS256"),
        typ: String::from("JWT"),
        kid: None,
    };
    let seg = h.encode().expect("encoding must succeed");
    assert_eq!(decode_segment(&seg), "{\"alg\":\"RS256\",\"typ\":\"JWT\"}");
    assert_eq!(seg, "eyJhbGciOiJSUzI1NiIsInR5cCI6IkpXVCJ9");
}

#[test]
fn header_key_id_is_emitted_when_present() {
    let h = JwsHeader {
        alg: String::from("RS256"),
        typ: String::from("JWT"),
        kid: Some(String::from("key-1")),
    };
    let seg = h.encode().expect("encoding must succeed");
    assert_eq!(
        decode_segment(&seg),
        "{\"alg\":\"RS256\",\"typ\":\"JWT\",\"kid\":\"key-1\"}"
    );
}
