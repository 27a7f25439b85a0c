use jsonwebtoken::errors::ErrorKind;
use jsonwebtoken::{DecodingKey, EncodingKey};
use website_editor::password;
use website_editor::token::{
    generate_refresh_token, new_refresh_material, setting_or, sha256_hex, to_hex_lower, KeyError,
    KeyPair, TokenManager,
};

/// The Ed25519 example key pair of RFC 8410: the private half as PKCS#8 DER,
/// the public half as its raw 32 bytes.
const PRIVATE_DER: [u8; 48] = [
    0x30, 0x2e, 0x02, 0x01, 0x00, 0x30, 0x05, 0x06, 0x03, 0x2b, 0x65, 0x70, 0x04, 0x22, 0x04, 0x20,
    0xd4, 0xee, 0x72, 0xdb, 0xf9, 0x13, 0x58, 0x4a, 0xd5, 0xb6, 0xd8, 0xf1, 0xf7, 0x69, 0xf8, 0xad,
    0x3a, 0xfe, 0x7c, 0x28, 0xcb, 0xf1, 0xd4, 0xfb, 0xe0, 0x97, 0xa8, 0x8f, 0x44, 0x75, 0x58, 0x42,
];
const PUBLIC_RAW: [u8; 32] = [
    0x19, 0xbf, 0x44, 0x09, 0x69, 0x84, 0xcd, 0xfe, 0x85, 0x41, 0xba, 0xc1, 0x67, 0xdc, 0x3b, 0x96,
    0xc8, 0x50, 0x86, 0xaa, 0x30, 0xb6, 0xb6, 0xcb, 0x0c, 0x5c, 0x38, 0xad, 0x70, 0x31, 0x66, 0xe1,
];

fn keys() -> KeyPair {
    let encoding = EncodingKey::from_ed_der(&PRIVATE_DER);
    let decoding = DecodingKey::from_ed_der(&PUBLIC_RAW);
    match KeyPair::from_parts(Ok(encoding), Ok(decoding)) {
        Ok(k) => k,
        Err(_) => panic!("test keys are accepted"),
    }
}

fn manager(minutes: Option<&str>, days: Option<&str>) -> TokenManager {
    TokenManager::new(keys(), keys(), minutes, days)
}

#[test]
fn hex_encoding_is_lower_case_two_digits_per_byte() {
    assert_eq!(to_hex_lower(&[0x00, 0x0f, 0xa5, 0xff]), "000fa5ff");
    assert_eq!(to_hex_lower(&[]), "");
}

#[test]
fn sha256_hex_matches_known_digests() {
    assert_eq!(
        sha256_hex("abc"),
        "ba7816bf8f01cfea414140de5dae2223b00361a396177a9cb410ff61f20015ad"
    );
    assert_eq!(
        sha256_hex(""),
        "e3b0c44298fc1c149afbf4c8996fb92427ae41e4649b934ca495991b7852b855"
    );
}

#[test]
fn refresh_tokens_are_64_hex_chars_and_stored_hashed() {
    let t = generate_refresh_token().expect("the system supplies randomness");
    assert_eq!(t.len(), 64);
    assert!(t.chars().all(|c| c.is_ascii_hexdigit() && !c.is_ascii_uppercase()));
    assert_ne!(generate_refresh_token().expect("the system supplies randomness"), t);
    let m = new_refresh_material().expect("the system supplies randomness");
    assert_eq!(m.hashed, sha256_hex(&m.raw));
    assert_ne!(m.hashed, m.raw);
}

#[test]
fn key_pairs_parse_and_reject_bad_pem() {
    let _ = keys();
    match KeyPair::from_pem(b"not a key", b"not a key") {
        Err(KeyError::InvalidPrivateKey) => {}
        _ => panic!("expected InvalidPrivateKey"),
    }
    match KeyPair::from_pem(b"", b"") {
        Err(KeyError::InvalidPrivateKey) => {}
        _ => panic!("expected InvalidPrivateKey"),
    }
    match KeyPair::from_parts(
        Err(ErrorKind::InvalidKeyFormat.into()),
        Ok(DecodingKey::from_ed_der(&PUBLIC_RAW)),
    ) {
        Err(KeyError::InvalidPrivateKey) => {}
        _ => panic!("expected InvalidPrivateKey"),
    }
    match KeyPair::from_parts(
        Err(ErrorKind::InvalidKeyFormat.into()),
        Err(ErrorKind::InvalidKeyFormat.into()),
    ) {
        Err(KeyError::InvalidPrivateKey) => {}
        _ => panic!("the private half is reported first"),
    }
    match KeyPair::from_parts(
        Ok(EncodingKey::from_ed_der(&PRIVATE_DER)),
        Err(ErrorKind::InvalidKeyFormat.into()),
    ) {
        Err(KeyError::InvalidPublicKey) => {}
        _ => panic!("expected InvalidPublicKey"),
    }
}

#[test]
fn settings_fall_back_to_defaults() {
    assert_eq!(setting_or(Some("45"), 15), 45);
    assert_eq!(setting_or(Some("-2"), 15), -2);
    assert_eq!(setting_or(Some("forty"), 15), 15);
    assert_eq!(setting_or(None, 30), 30);
    assert_eq!(setting_or(Some("+7"), 15), 7);
    assert_eq!(setting_or(Some("-0"), 15), 0);
    assert_eq!(setting_or(Some(""), 15), 15);
    assert_eq!(setting_or(Some("-"), 15), 15);
    assert_eq!(setting_or(Some(" 5"), 15), 15);
    assert_eq!(setting_or(Some("5 "), 15), 15);
    assert_eq!(setting_or(Some("1_000"), 15), 15);
    assert_eq!(setting_or(Some("9223372036854775807"), 15), i64::MAX);
    assert_eq!(setting_or(Some("-9223372036854775808"), 15), i64::MIN);
    assert_eq!(setting_or(Some("9223372036854775808"), 15), 15);
    let m = manager(None, None);
    assert_eq!(m.access_minutes(), 15);
    assert_eq!(m.refresh_days(), 30);
    let m = manager(Some("5"), Some("x"));
    assert_eq!(m.access_minutes(), 5);
    assert_eq!(m.refresh_days(), 30);
}

#[test]
fn lifetimes_and_claims_agree() {
    let m = manager(None, None);
    assert_eq!(m.access_expires_in_seconds(), 900);
    assert_eq!(m.refresh_expires_in_seconds(), 2_592_000);
    let now = 1_725_029_869;
    assert!(m.access_window_ok(now));
    assert!(m.refresh_window_ok(now));
    let c = m.access_claims(7, "alice", true, now);
    assert_eq!((c.sub, c.username.as_str(), c.iat, c.must_change_password), (7, "alice", now, true));
    assert_eq!(c.exp - c.iat, m.access_expires_in_seconds());
    let r = m.refresh_claims(7, "alice", now);
    assert!(!r.must_change_password);
    assert_eq!(r.exp - r.iat, m.refresh_expires_in_seconds());
    assert_eq!(m.refresh_expires_at(now), now + 2_592_000);
}

#[test]
fn absurd_lifetimes_are_detected() {
    let m = manager(Some("9223372036854775807"), Some("106751991167300"));
    assert!(!m.access_window_ok(1_725_029_869));
    assert!(!m.refresh_window_ok(1_725_029_869));
}

#[test]
fn password_hash_round_trip() {
    let h = password::hash("longenough".to_string()).expect("salt available");
    assert!(h.starts_with("$2b$12$"));
    assert_eq!(h.len(), 60);
    assert!(password::verify("longenough".to_string(), h.clone()));
    assert!(!password::verify("longenougH".to_string(), h.clone()));
    assert!(!password::verify("x".to_string(), "not a hash".to_string()));
    assert!(!password::verify("longenough".to_string(), String::new()));
    // Right length, wrong prefix.
    let wrong_prefix = format!("$3b{}", &h[3..]);
    assert!(!password::verify("longenough".to_string(), wrong_prefix));
}
