use base64::engine::general_purpose::STANDARD;
use base64::Engine;
use ed25519_dalek::{ExpandedSecretKey, PublicKey, SecretKey};
use price_oracle::api::{ApiError, VerificationService};
use sha2::{Digest, Sha256};

fn signed(payload: &[u8]) -> (String, String) {
    let secret = SecretKey::from_bytes(&[7u8; 32]).unwrap();
    let public = PublicKey::from(&secret);
    let digest = Sha256::digest(payload);
    let signature = ExpandedSecretKey::from(&secret).sign(&digest, &public);
    (STANDARD.encode(signature.to_bytes()), STANDARD.encode(public.to_bytes()))
}

#[test]
fn valid_signature_verifies() {
    let payload = br#"{"id":"1","score":0.5}"#;
    let (sig, key) = signed(payload);
    let service = VerificationService::new();
    assert_eq!(service.verify_payload(payload, &sig, &key), Ok(true));
}

#[test]
fn tampered_payload_does_not_verify() {
    let (sig, key) = signed(b"genuine");
    let service = VerificationService::new();
    assert_eq!(service.verify_payload(b"altered", &sig, &key), Ok(false));
}

#[test]
fn signature_over_undigested_payload_does_not_verify() {
    let payload = b"payload";
    let secret = SecretKey::from_bytes(&[9u8; 32]).unwrap();
    let public = PublicKey::from(&secret);
    let raw = ExpandedSecretKey::from(&secret).sign(payload, &public);
    let service = VerificationService::new();
    let r = service.verify_payload(payload, &STANDARD.encode(raw.to_bytes()), &STANDARD.encode(public.to_bytes()));
    assert_eq!(r, Ok(false));
}

#[test]
fn text_that_is_no_base64_is_a_bad_request() {
    let (sig, key) = signed(b"x");
    let service = VerificationService::new();
    assert!(matches!(service.verify_payload(b"x", "not base64!", &key), Err(ApiError::BadRequest(_))));
    assert!(matches!(service.verify_payload(b"x", &sig, "%%%"), Err(ApiError::BadRequest(_))));
}

#[test]
fn malformed_signature_or_key_fails_verification() {
    let (sig, key) = signed(b"x");
    let service = VerificationService::new();
    let short = STANDARD.encode([1u8; 10]);
    assert_eq!(service.verify_payload(b"x", &short, &key), Err(ApiError::SignatureVerificationFailed));
    assert_eq!(service.verify_payload(b"x", &sig, &short), Err(ApiError::SignatureVerificationFailed));
    let mut high = [0u8; 64];
    high[63] = 0xff;
    assert_eq!(
        service.verify_payload(b"x", &STANDARD.encode(high), &key),
        Err(ApiError::SignatureVerificationFailed)
    );
}
