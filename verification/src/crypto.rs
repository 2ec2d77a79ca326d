//! Foreign-chain signature verification: an ed25519 signature is checked
//! over the SHA-256 digest of the caller-supplied message, against the
//! 32-byte verification key stored in the wallet.
//!
//! The cryptographic primitives come from the `sha2` and `ed25519_dalek`
//! crates; their results are given names here (`sha256_of`,
//! `ed25519_verifies`, ...) and everything around the calls is verified
//! against those names.

use vstd::prelude::*;

use crate::errors::ErrorCode;
use ed25519_dalek::Verifier;
use sha2::Digest;

verus! {

/// The SHA-256 digest of a byte string.
pub uninterp spec fn sha256_of(bytes: Seq<u8>) -> Seq<u8>;

/// Whether a 32-byte string is a well-formed ed25519 verification key.
pub uninterp spec fn ed25519_valid_public_key(bytes: Seq<u8>) -> bool;

/// Whether a 64-byte string is a well-formed ed25519 signature encoding.
pub uninterp spec fn ed25519_valid_signature(bytes: Seq<u8>) -> bool;

/// Whether `signature` is an ed25519 signature over `message` under the key
/// encoded by `public_key`.
pub uninterp spec fn ed25519_verifies(
    public_key: Seq<u8>,
    message: Seq<u8>,
    signature: Seq<u8>,
) -> bool;

/// Relies on `sha2::Sha256::digest`: the 32-byte digest depends on the input
/// bytes alone.
#[verifier::external_body]
pub(crate) fn sha256(bytes: &[u8]) -> (r: [u8; 32])
    ensures
        r@ == sha256_of(bytes@),
{
    sha2::Sha256::digest(bytes).into()
}

/// Relies on `ed25519_dalek::PublicKey::from_bytes`: it accepts a 32-byte
/// string exactly when it decodes to a curve point, and depends on the bytes
/// alone.
#[verifier::external_body]
pub(crate) fn public_key_is_valid(bytes: &[u8; 32]) -> (r: bool)
    ensures
        r == ed25519_valid_public_key(bytes@),
{
    ed25519_dalek::PublicKey::from_bytes(bytes).is_ok()
}

/// Relies on `ed25519_dalek::Signature::from_bytes`: it accepts a 64-byte
/// string exactly when the scalar half passes its well-formedness check, and
/// depends on the bytes alone.
#[verifier::external_body]
pub(crate) fn signature_is_valid(bytes: &[u8; 64]) -> (r: bool)
    ensures
        r == ed25519_valid_signature(bytes@),
{
    ed25519_dalek::Signature::from_bytes(bytes).is_ok()
}

/// Relies on `ed25519_dalek::PublicKey::verify`: it accepts or rejects as a
/// function of the key bytes, the message and the signature bytes alone. The
/// two `from_bytes` calls only rebuild the already-validated arguments.
#[verifier::external_body]
pub(crate) fn ed25519_verify(
    public_key: &[u8; 32],
    message: &[u8],
    signature: &[u8; 64],
) -> (r: bool)
    requires
        ed25519_valid_public_key(public_key@),
        ed25519_valid_signature(signature@),
    ensures
        r == ed25519_verifies(public_key@, message@, signature@),
{
    let key = ed25519_dalek::PublicKey::from_bytes(public_key).unwrap();
    let sig = ed25519_dalek::Signature::from_bytes(signature).unwrap();
    key.verify(message, &sig).is_ok()
}

/// A (key, message, signature) triple authorizes a request when the key and
/// signature encodings are well formed and the signature verifies over the
/// SHA-256 digest of the message.
pub open spec fn signature_authorizes(
    public_key: Seq<u8>,
    message: Seq<u8>,
    signature: Seq<u8>,
) -> bool {
    &&& ed25519_valid_public_key(public_key)
    &&& ed25519_valid_signature(signature)
    &&& ed25519_verifies(public_key, sha256_of(message), signature)
}

/// What `verify` returns for each input: the first failing check names the
/// error, and success comes exactly on authorizing triples.
pub open spec fn verify_result(
    public_key: Seq<u8>,
    message: Seq<u8>,
    signature: Seq<u8>,
) -> Result<(), ErrorCode> {
    if !ed25519_valid_public_key(public_key) {
        Err(ErrorCode::InvalidPublicKey)
    } else if !ed25519_valid_signature(signature) {
        Err(ErrorCode::InvalidSignature)
    } else if !ed25519_verifies(public_key, sha256_of(message), signature) {
        Err(ErrorCode::SignatureVerificationFailed)
    } else {
        Ok(())
    }
}

/// Verify a foreign-chain signature over `message` against `public_key`.
///
/// The signature is checked over the SHA-256 digest of `message`, as the
/// foreign scheme prescribes. Deterministic and side-effect free; succeeds
/// exactly on authorizing triples.
pub fn verify(public_key: &[u8; 32], message: &[u8], signature: &[u8; 64]) -> (r: Result<
    (),
    ErrorCode,
>)
    ensures
        r == verify_result(public_key@, message@, signature@),
        r is Ok <==> signature_authorizes(public_key@, message@, signature@),
{
    if !public_key_is_valid(public_key) {
        return Err(ErrorCode::InvalidPublicKey);
    }
    if !signature_is_valid(signature) {
        return Err(ErrorCode::InvalidSignature);
    }
    let digest = sha256(message);
    if ed25519_verify(public_key, digest.as_slice(), signature) {
        Ok(())
    } else {
        Err(ErrorCode::SignatureVerificationFailed)
    }
}

} // verus!
