//! The error taxonomy of the wallet engine. Every failure is terminal for
//! the request that raised it: no operation is retried and no state is
//! partially applied.

use vstd::prelude::*;

verus! {

/// Why a request was rejected.
///
/// Authentication errors (`InvalidPublicKey`, `InvalidSignature`,
/// `SignatureVerificationFailed`) mean the credentials were malformed or did
/// not match. State errors (`AlreadyInitialized`, `WalletAlreadyExists`,
/// `WalletInactive`) mean a precondition on persisted state was violated.
/// Payload errors (`MalformedPayload`, `InvalidMessage`,
/// `UnsupportedOperation`) mean the decoded request was structurally or
/// semantically invalid. `TransferFailed` propagates a failure reported by
/// the external value-transfer collaborator.
#[derive(Clone, Copy, Debug, PartialEq, Eq, Structural)]
pub enum ErrorCode {
    InvalidPublicKey,
    InvalidSignature,
    SignatureVerificationFailed,
    AlreadyInitialized,
    WalletAlreadyExists,
    WalletInactive,
    MalformedPayload,
    InvalidMessage,
    UnsupportedOperation,
    TransferFailed,
}

} // verus!
