//! Ed25519 keys and signatures, and the seeded generator that draws secret keys.

use ark_std::rand::rngs::StdRng;
use ark_std::rand::{RngCore, SeedableRng};
use ed25519_dalek::{Signature, Signer, SigningKey, Verifier, VerifyingKey};
use vstd::prelude::*;

verus! {

/// Length in bytes of an Ed25519 secret key.
pub const SECRET_KEY_LENGTH: usize = 32;

/// Length in bytes of an Ed25519 public key.
pub const PUBLIC_KEY_LENGTH: usize = 32;

/// Length in bytes of an Ed25519 signature.
pub const SIGNATURE_LENGTH: usize = 64;

/// The Ed25519 public key that belongs to a secret key.
pub uninterp spec fn ed25519_public_of(secret: Seq<u8>) -> Seq<u8>;

/// The Ed25519 signature of a message under a secret key.
pub uninterp spec fn ed25519_signature_of(secret: Seq<u8>, message: Seq<u8>) -> Seq<u8>;

/// Whether an Ed25519 public key accepts a signature on a message.
pub uninterp spec fn ed25519_accepts(public_key: Seq<u8>, message: Seq<u8>, signature: Seq<u8>) -> bool;

/// Relies on ed25519-dalek's `SigningKey::from_bytes` and
/// `SigningKey::verifying_key`: the public key that a secret key determines.
#[verifier::external_body]
pub fn ed25519_public_key(secret: &[u8; 32]) -> (r: [u8; 32])
    ensures
        r@ == ed25519_public_of(secret@),
{
    SigningKey::from_bytes(secret).verifying_key().to_bytes()
}

/// Relies on ed25519-dalek's `Signer::sign` for `SigningKey`: the deterministic
/// signature of `message`, which the matching public key accepts.
#[verifier::external_body]
pub fn ed25519_sign(secret: &[u8; 32], message: &[u8]) -> (r: [u8; 64])
    ensures
        r@ == ed25519_signature_of(secret@, message@),
        ed25519_accepts(ed25519_public_of(secret@), message@, r@),
{
    SigningKey::from_bytes(secret).sign(message).to_bytes()
}

/// Relies on ed25519-dalek's `VerifyingKey::from_bytes` and `Verifier::verify`
/// for `VerifyingKey`: whether the key accepts the signature on the message. A
/// key that does not decode accepts nothing.
#[verifier::external_body]
pub fn ed25519_verify(public_key: &[u8; 32], message: &[u8], signature: &[u8; 64]) -> (r: bool)
    ensures
        r == ed25519_accepts(public_key@, message@, signature@),
{
    match VerifyingKey::from_bytes(public_key) {
        Ok(key) => key.verify(message, &Signature::from_bytes(signature)).is_ok(),
        Err(_) => false,
    }
}

/// The thirty-two bytes drawn from rand's `StdRng` seeded with `seed`.
pub uninterp spec fn seeded_secret_of(seed: u64) -> Seq<u8>;

/// Relies on `SeedableRng::seed_from_u64` and `RngCore::fill_bytes` for rand's
/// `StdRng`: a generator seeded from `seed` fills the key deterministically.
/// This is a mode for testing, not a source of entropy.
#[verifier::external_body]
pub fn seeded_secret_key(seed: u64) -> (r: [u8; 32])
    ensures
        r@ == seeded_secret_of(seed),
{
    let mut secret = [0u8; 32];
    StdRng::seed_from_u64(seed).fill_bytes(&mut secret);
    secret
}

/// Copies a byte slice of length thirty-two into an array.
pub fn to_array_32(bytes: &[u8]) -> (r: [u8; 32])
    requires
        bytes@.len() == 32,
    ensures
        r@ == bytes@,
{
    let mut out = [0u8; 32];
    let mut i: usize = 0;
    while i < 32
        invariant
            i <= 32,
            bytes@.len() == 32,
            forall|j: int| 0 <= j < i ==> out@[j] == bytes@[j],
        decreases 32 - i,
    {
        out[i] = bytes[i];
        i = i + 1;
    }
    proof {
        vstd::array::array_len_matches_n(&out);
    }
    assert(out@ =~= bytes@);
    out
}

/// Copies a byte slice of length sixty-four into an array.
pub fn to_array_64(bytes: &[u8]) -> (r: [u8; 64])
    requires
        bytes@.len() == 64,
    ensures
        r@ == bytes@,
{
    let mut out = [0u8; 64];
    let mut i: usize = 0;
    while i < 64
        invariant
            i <= 64,
            bytes@.len() == 64,
            forall|j: int| 0 <= j < i ==> out@[j] == bytes@[j],
        decreases 64 - i,
    {
        out[i] = bytes[i];
        i = i + 1;
    }
    proof {
        vstd::array::array_len_matches_n(&out);
    }
    assert(out@ =~= bytes@);
    out
}

} // verus!
