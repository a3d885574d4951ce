//! Hardware-backed credential stores (HSM, TPM): the values they exchange.
//!
//! The stores themselves are supplied by the deployment; keys never leave
//! the hardware, which signs and decrypts on the caller's behalf, and a TPM
//! seals secrets to expected platform-configuration-register values.

use vstd::prelude::*;

use std::collections::HashMap;

verus! {

broadcast use vstd::std_specs::hash::group_hash_axioms;

/// The health of an HSM.
#[derive(Debug, Clone)]
pub struct HsmHealth {
    /// Whether the HSM answers.
    pub connected: bool,
    /// Its firmware version.
    pub firmware_version: String,
    /// Open sessions.
    pub active_sessions: u32,
    /// Unix time of the check, in seconds.
    pub last_check: u64,
}

/// An elliptic curve.
#[derive(Debug, Clone, Copy, PartialEq, Eq, Structural)]
pub enum EcCurve {
    /// NIST P-256.
    P256,
    /// NIST P-384.
    P384,
    /// NIST P-521.
    P521,
}

/// A key algorithm.
#[derive(Debug, Clone, Copy, PartialEq, Eq, Structural)]
pub enum KeyAlgorithm {
    /// RSA with a key size in bits.
    Rsa {
        /// Key size.
        bits: u32,
    },
    /// ECDSA on a curve.
    Ecdsa {
        /// The curve.
        curve: EcCurve,
    },
    /// AES with a key size in bits.
    Aes {
        /// Key size.
        bits: u32,
    },
}

/// A handle on a key held in the hardware.
#[derive(Debug, Clone)]
pub struct KeyHandle {
    /// The handle's ID.
    pub id: Vec<u8>,
    /// The key's algorithm.
    pub algorithm: KeyAlgorithm,
    /// Whether the key may leave the hardware.
    pub extractable: bool,
}

/// A signature made by the hardware.
#[derive(Debug, Clone)]
pub struct Signature {
    /// The signature bytes.
    pub bytes: Vec<u8>,
    /// The algorithm used.
    pub algorithm: KeyAlgorithm,
}

/// A platform-configuration-register value.
#[derive(Debug, Clone)]
pub struct PcrValue {
    /// Register index.
    pub index: u32,
    /// Its SHA-256 value.
    pub value: [u8; 32],
}

/// A TPM attestation quote.
#[derive(Debug, Clone)]
pub struct AttestationQuote {
    /// The quote.
    pub quote: Vec<u8>,
    /// Its signature by the attestation key.
    pub signature: Vec<u8>,
    /// The attestation key's certificate.
    pub ak_certificate: Vec<u8>,
}

/// The register values a sealed secret may be unsealed under.
#[derive(Debug, Clone)]
pub struct PcrPolicy {
    /// Expected value of each register.
    pub expected_pcrs: HashMap<u32, [u8; 32]>,
}

impl PcrPolicy {
    /// A policy expecting nothing.
    pub fn new() -> (p: PcrPolicy)
        ensures
            p.expected_pcrs@ == Map::<u32, [u8; 32]>::empty(),
    {
        PcrPolicy { expected_pcrs: HashMap::new() }
    }

    /// The same policy, also expecting `value` in register `index` (in
    /// place of what it expected there before).
    pub fn with_pcr(self, index: u32, value: [u8; 32]) -> (p: PcrPolicy)
        ensures
            p.expected_pcrs@ == self.expected_pcrs@.insert(index, value),
    {
        let mut m = self.expected_pcrs;
        m.insert(index, value);
        PcrPolicy { expected_pcrs: m }
    }
}

impl Default for PcrPolicy {
    fn default() -> (p: PcrPolicy)
        ensures
            p.expected_pcrs@ == Map::<u32, [u8; 32]>::empty(),
    {
        PcrPolicy::new()
    }
}

} // verus!
