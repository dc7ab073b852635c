//! Issuance and verification of signed course certificates.
//!
//! The library holds the canonical message encoding that issuers sign, the
//! recoverable secp256k1 signature check over its keccak-256 digest, and the
//! registry with its admin / issuer authorization state machine.

pub mod config;
pub mod contract;
pub mod encoding;
pub mod errors;
pub mod events;
pub mod key_util;
pub mod keypair;
pub mod service_error;
pub mod signature;
pub mod storage;
pub mod types;
