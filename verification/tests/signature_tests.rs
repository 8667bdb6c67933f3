//! Tests for webhook signature verification, including a published
//! HMAC-SHA-256 test vector (RFC 4231, test case 2).

use hmac::{Hmac, Mac};
use rhodibot::signature::verify_signature;
use sha2::Sha256;

const RFC4231_KEY: &str = "Jefe";
const RFC4231_DATA: &str = "what do ya want for nothing?";
const RFC4231_TAG: &str = "5bdcc146bf60754e6a042426089575c75a003f089d2739839dec58b964ec3843";

#[test]
fn accepts_the_rfc4231_vector_with_prefix() {
    let header = format!("sha256={}", RFC4231_TAG);
    assert!(verify_signature(RFC4231_KEY, RFC4231_DATA, &header));
}

#[test]
fn accepts_the_rfc4231_vector_without_prefix() {
    assert!(verify_signature(RFC4231_KEY, RFC4231_DATA, RFC4231_TAG));
}

#[test]
fn accepts_uppercase_hex() {
    let header = format!("sha256={}", RFC4231_TAG.to_uppercase());
    assert!(verify_signature(RFC4231_KEY, RFC4231_DATA, &header));
}

#[test]
fn rejects_a_tampered_tag() {
    let mut tampered = String::from("sha256=6");
    tampered.push_str(&RFC4231_TAG[1..]);
    assert!(!verify_signature(RFC4231_KEY, RFC4231_DATA, &tampered));
}

#[test]
fn rejects_the_wrong_key_and_the_wrong_payload() {
    let header = format!("sha256={}", RFC4231_TAG);
    assert!(!verify_signature("jefe", RFC4231_DATA, &header));
    assert!(!verify_signature(RFC4231_KEY, "what do ya want for nothing!", &header));
}

#[test]
fn rejects_malformed_hex() {
    assert!(!verify_signature(RFC4231_KEY, RFC4231_DATA, "sha256=abc"));
    assert!(!verify_signature(RFC4231_KEY, RFC4231_DATA, "sha256=zz"));
    assert!(!verify_signature(RFC4231_KEY, RFC4231_DATA, ""));
    assert!(!verify_signature(RFC4231_KEY, RFC4231_DATA, "sha256="));
}

#[test]
fn accepts_a_freshly_computed_signature() {
    let secret = "a shared webhook secret";
    let payload = "{\"action\":\"opened\",\"number\":7}";
    let mut mac = Hmac::<Sha256>::new_from_slice(secret.as_bytes()).unwrap();
    mac.update(payload.as_bytes());
    let tag = mac.finalize().into_bytes();
    let header = format!("sha256={}", hex::encode(tag));
    assert!(verify_signature(secret, payload, &header));
    assert!(!verify_signature("other secret", payload, &header));
}
