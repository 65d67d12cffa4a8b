use activity_invites::dispatch::signature_headers;
use activity_invites::dispatch::validate_request;
use activity_invites::verify::verify;
use ed25519_dalek::{ExpandedSecretKey, PublicKey, SecretKey};

fn keypair() -> (PublicKey, ExpandedSecretKey) {
    let secret = SecretKey::from_bytes(&[7u8; 32]).unwrap();
    let public = PublicKey::from(&secret);
    let expanded = ExpandedSecretKey::from(&secret);
    (public, expanded)
}

fn signed(ts: &str, body: &str) -> (String, String) {
    let (public, expanded) = keypair();
    let msg = format!("{}{}", ts, body);
    let sig = expanded.sign(msg.as_bytes(), &public);
    (hex::encode(sig.to_bytes()), hex::encode(public.to_bytes()))
}

#[test]
fn valid_signature_accepted() {
    let ts = "1699999999";
    let body = "{\"type\":1}";
    let (sig_hex, key_hex) = signed(ts, body);
    assert!(verify(&sig_hex, &ts.to_string(), &body.to_string(), key_hex));
}

#[test]
fn flipped_signature_byte_rejected() {
    let ts = "1699999999";
    let body = "{\"type\":1}";
    let (sig_hex, key_hex) = signed(ts, body);
    let mut sig_bytes = hex::decode(&sig_hex).unwrap();
    sig_bytes[0] ^= 1;
    let bad_sig = hex::encode(sig_bytes);
    assert!(!verify(&bad_sig, &ts.to_string(), &body.to_string(), key_hex));
}

#[test]
fn flipped_timestamp_byte_rejected() {
    let body = "{\"type\":1}";
    let (sig_hex, key_hex) = signed("1699999999", body);
    assert!(!verify(
        &sig_hex,
        &"2699999999".to_string(),
        &body.to_string(),
        key_hex
    ));
}

#[test]
fn flipped_body_byte_rejected() {
    let ts = "1699999999";
    let (sig_hex, key_hex) = signed(ts, "{\"type\":1}");
    assert!(!verify(
        &sig_hex,
        &ts.to_string(),
        &"{\"type\":2}".to_string(),
        key_hex
    ));
}

#[test]
fn flipped_key_byte_rejected() {
    let ts = "1699999999";
    let body = "{\"type\":1}";
    let (sig_hex, key_hex) = signed(ts, body);
    let mut key_bytes = hex::decode(&key_hex).unwrap();
    key_bytes[0] ^= 1;
    let bad_key = hex::encode(key_bytes);
    assert!(!verify(&sig_hex, &ts.to_string(), &body.to_string(), bad_key));
}

#[test]
fn signature_covers_timestamp_body_split() {
    // The signed message is the plain concatenation, so moving a character
    // from the body to the timestamp leaves the same message bytes.
    let (sig_hex, key_hex) = signed("16", "99abc");
    assert!(verify(
        &sig_hex,
        &"1699".to_string(),
        &"abc".to_string(),
        key_hex
    ));
}

#[test]
fn non_hex_signature_rejected() {
    let (_, key_hex) = signed("1", "2");
    assert!(!verify(
        &"zz".to_string(),
        &"1".to_string(),
        &"2".to_string(),
        key_hex
    ));
}

#[test]
fn odd_length_signature_rejected() {
    let (_, key_hex) = signed("1", "2");
    assert!(!verify(
        &"abc".to_string(),
        &"1".to_string(),
        &"2".to_string(),
        key_hex
    ));
}

#[test]
fn non_hex_key_rejected() {
    let ts = "1699999999";
    let body = "{\"type\":1}";
    let (sig_hex, _) = signed(ts, body);
    assert!(!verify(
        &sig_hex,
        &ts.to_string(),
        &body.to_string(),
        "not hex at all".to_string()
    ));
}

#[test]
fn wrong_length_key_rejected() {
    // Well-formed hex, but not 32 bytes: the key cannot parse.
    let ts = "1699999999";
    let body = "{\"type\":1}";
    let (sig_hex, _) = signed(ts, body);
    assert!(!verify(
        &sig_hex,
        &ts.to_string(),
        &body.to_string(),
        "abcd".to_string()
    ));
}

#[test]
fn signature_headers_found_by_name() {
    let headers = vec![
        ("Content-Type".to_string(), "application/json".to_string()),
        ("X-Signature-Ed25519".to_string(), "aabb".to_string()),
        ("X-Signature-Timestamp".to_string(), "1699999999".to_string()),
    ];
    let (sig, ts) = signature_headers(&headers);
    assert_eq!(sig, Some("aabb".to_string()));
    assert_eq!(ts, Some("1699999999".to_string()));
}

#[test]
fn absent_signature_headers_are_none() {
    let headers = vec![(
        "Content-Type".to_string(),
        "application/json".to_string(),
    )];
    let (sig, ts) = signature_headers(&headers);
    assert_eq!(sig, None);
    assert_eq!(ts, None);
}

#[test]
fn first_signature_header_wins() {
    let headers = vec![
        ("X-Signature-Ed25519".to_string(), "aabb".to_string()),
        ("X-Signature-Ed25519".to_string(), "ccdd".to_string()),
    ];
    let (sig, _) = signature_headers(&headers);
    assert_eq!(sig, Some("aabb".to_string()));
}

#[test]
fn missing_signature_header_rejected() {
    let (_, key_hex) = signed("1", "2");
    let r = validate_request(None, Some("1".to_string()), "2".to_string(), key_hex);
    assert!(r.is_none());
}

#[test]
fn missing_timestamp_header_rejected() {
    let (sig_hex, key_hex) = signed("1", "2");
    let r = validate_request(Some(sig_hex), None, "2".to_string(), key_hex);
    assert!(r.is_none());
}

#[test]
fn valid_request_hands_back_body() {
    let ts = "1699999999";
    let body = "{\"type\":1}";
    let (sig_hex, key_hex) = signed(ts, body);
    let r = validate_request(
        Some(sig_hex),
        Some(ts.to_string()),
        body.to_string(),
        key_hex,
    );
    assert_eq!(r, Some(body.to_string()));
}

#[test]
fn tampered_request_yields_no_body() {
    let ts = "1699999999";
    let (sig_hex, key_hex) = signed(ts, "{\"type\":1}");
    let r = validate_request(
        Some(sig_hex),
        Some(ts.to_string()),
        "{\"type\":9}".to_string(),
        key_hex,
    );
    assert!(r.is_none());
}
