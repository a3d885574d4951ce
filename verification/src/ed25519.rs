//! Ed25519 signing and strict verification of ledger anchors, through
//! `ed25519_dalek`. Signing is deterministic (RFC 8032): the same seed and
//! message always give the same signature, so anchored chains replay
//! byte for byte.

use vstd::prelude::*;
use ed25519_dalek::Signer;

verus! {

/// The Ed25519 signature of a message under the key with this 32-byte
/// seed (deterministic, RFC 8032).
pub uninterp spec fn ed25519_signature(seed: Seq<u8>, msg: Seq<u8>) -> Seq<u8>;

/// Whether an Ed25519 signature over a message verifies, strictly, under a
/// public key (all as bytes).
pub uninterp spec fn ed25519_accepts(pubkey: Seq<u8>, msg: Seq<u8>, sig: Seq<u8>) -> bool;

/// Sign `msg` with a 32-byte seed (`SigningKey::from_bytes`, then
/// `Signer::sign`); the raw signature. The signature is named, not stated;
/// the source shows it is 64 bytes long and a function of the seed and the
/// message alone.
#[verifier::external_body]
pub fn sign(seed: &[u8; 32], msg: &[u8]) -> (sig: Vec<u8>)
    ensures
        sig@ == ed25519_signature(seed@, msg@),
        sig@.len() == 64,
{
    let key = ed25519_dalek::SigningKey::from_bytes(seed);
    key.sign(msg).to_bytes().to_vec()
}

/// Verify `sig` over `msg` under a 32-byte public key: the key and the
/// signature are read from bytes (`VerifyingKey::from_bytes`,
/// `Signature::from_slice`), then `verify_strict`; a key or signature that
/// cannot be read is refused. The outcome is named; what the source shows
/// is stated too: a signature that is not 64 bytes long is refused.
#[verifier::external_body]
pub fn verify(pubkey: &[u8; 32], msg: &[u8], sig: &[u8]) -> (ok: bool)
    ensures
        ok == ed25519_accepts(pubkey@, msg@, sig@),
        sig@.len() != 64 ==> !ok,
{
    let key = match ed25519_dalek::VerifyingKey::from_bytes(pubkey) {
        Ok(k) => k,
        Err(_) => return false,
    };
    let signature = match ed25519_dalek::Signature::from_slice(sig) {
        Ok(s) => s,
        Err(_) => return false,
    };
    key.verify_strict(msg, &signature).is_ok()
}

} // verus!
