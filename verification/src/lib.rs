//! A cross-chain custodial smart-wallet engine: wallets live on a host
//! ledger but are controlled by an ed25519 keypair from a foreign ledger.
//! The library derives wallet addresses deterministically, verifies
//! foreign signatures over SHA-256 digests, decodes transaction payloads,
//! and runs the factory/wallet state machine.

pub mod addressing;
pub mod crypto;
pub mod dispatch;
pub mod errors;
pub mod manager;
pub mod payload;
pub mod state;

pub use errors::ErrorCode;
