//! A minimal private public-key infrastructure for a closed fleet of devices
//! whose private keys live in an external key-custody provider: certificate
//! authority issuance logic, PEM certificate-chain handling, a remote signing
//! identity, and the decision logic of a one-shot mutual-TLS endpoint.

use vstd::prelude::*;

pub mod ca;
pub mod chain;
pub mod endpoint;
pub mod errors;
pub mod signer;

verus! {

/// The signature scheme every identity in the fleet uses: ECDSA P-256 with
/// SHA-256, as numbered in the TLS signature-scheme registry.
pub const ECDSA_P256_SHA256_SCHEME: u16 = 0x0403;

} // verus!
