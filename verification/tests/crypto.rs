use crosswallet::crypto::verify;
use crosswallet::ErrorCode;
use sha2::Digest;

fn keypair(seed: u8) -> ([u8; 32], ed25519_dalek::ExpandedSecretKey, ed25519_dalek::PublicKey) {
    let secret = ed25519_dalek::SecretKey::from_bytes(&[seed; 32]).unwrap();
    let public = ed25519_dalek::PublicKey::from(&secret);
    let expanded = ed25519_dalek::ExpandedSecretKey::from(&secret);
    (public.to_bytes(), expanded, public)
}

fn sign(
    message: &[u8],
    expanded: &ed25519_dalek::ExpandedSecretKey,
    public: &ed25519_dalek::PublicKey,
) -> [u8; 64] {
    let digest: [u8; 32] = sha2::Sha256::digest(message).into();
    expanded.sign(&digest, public).to_bytes()
}

#[test]
fn verify_accepts_valid_signature() {
    let (pk, expanded, public) = keypair(1);
    let message = b"move 100 to the bridge account";
    let signature = sign(message, &expanded, &public);
    assert_eq!(verify(&pk, message, &signature), Ok(()));
}

#[test]
fn verify_rejects_tampered_message() {
    let (pk, expanded, public) = keypair(2);
    let message = b"move 100 to the bridge account";
    let signature = sign(message, &expanded, &public);
    let mut tampered = message.to_vec();
    tampered[0] ^= 0x01;
    assert_eq!(
        verify(&pk, &tampered, &signature),
        Err(ErrorCode::SignatureVerificationFailed)
    );
}

#[test]
fn verify_rejects_tampered_signature() {
    let (pk, expanded, public) = keypair(3);
    let message = b"move 100 to the bridge account";
    let mut signature = sign(message, &expanded, &public);
    signature[0] ^= 0x01;
    assert_eq!(
        verify(&pk, message, &signature),
        Err(ErrorCode::SignatureVerificationFailed)
    );
}

#[test]
fn verify_rejects_wrong_key() {
    let (_, expanded, public) = keypair(4);
    let (other_pk, _, _) = keypair(5);
    let message = b"move 100 to the bridge account";
    let signature = sign(message, &expanded, &public);
    assert_eq!(
        verify(&other_pk, message, &signature),
        Err(ErrorCode::SignatureVerificationFailed)
    );
}

#[test]
fn verify_rejects_malformed_public_key() {
    // Find a 32-byte string that is not a point encoding; roughly half of
    // all strings qualify, so a small scan always succeeds.
    let mut bad = None;
    for b in 0u8..=255 {
        let mut candidate = [b; 32];
        candidate[31] = b;
        if ed25519_dalek::PublicKey::from_bytes(&candidate).is_err() {
            bad = Some(candidate);
            break;
        }
    }
    let bad = bad.expect("no malformed key encoding found in the scan");
    let (_, expanded, public) = keypair(6);
    let message = b"anything";
    let signature = sign(message, &expanded, &public);
    assert_eq!(
        verify(&bad, message, &signature),
        Err(ErrorCode::InvalidPublicKey)
    );
}

#[test]
fn verify_rejects_malformed_signature_encoding() {
    let (pk, expanded, public) = keypair(7);
    let message = b"anything";
    let mut signature = sign(message, &expanded, &public);
    // The scalar half must have its top bits clear; 0xff there is refused
    // by the signature decoder before any curve arithmetic runs.
    signature[63] = 0xff;
    assert_eq!(verify(&pk, message, &signature), Err(ErrorCode::InvalidSignature));
}

#[test]
fn verify_is_idempotent() {
    let (pk, expanded, public) = keypair(8);
    let message = b"same request twice";
    let signature = sign(message, &expanded, &public);
    assert_eq!(verify(&pk, message, &signature), Ok(()));
    assert_eq!(verify(&pk, message, &signature), Ok(()));
}
