//! The digest-to-field encoder.
//!
//! A digest is mapped to a field value by reading its first eight bytes as a
//! little-endian `u64` and reducing it modulo `10^12`. The prover and the
//! verifier must use this exact rule, or proofs silently fail to match. Every
//! such value, like every `u64`, lies far below the order of the proving
//! system's scalar field, so the field element is the integer itself.

use crate::digest::{le_u64_prefix, le_value, sha256, sha256_of};
use vstd::prelude::*;

verus! {

/// The modulus that shrinks a digest prefix to a field value.
pub const FIELD_REDUCTION_MODULUS: u64 = 1_000_000_000_000;

/// The field value of a digest of at least eight bytes.
pub open spec fn field_of_digest(digest: Seq<u8>) -> nat {
    le_value(digest.take(8)) % (FIELD_REDUCTION_MODULUS as nat)
}

/// The field value that the encoder gives to a byte string: the field value of
/// its SHA-256 digest.
pub open spec fn encode_spec(data: Seq<u8>) -> nat {
    field_of_digest(sha256_of(data))
}

/// Reduces an already computed digest to its field value.
pub fn digest_to_field(digest: &[u8]) -> (r: u64)
    requires
        digest@.len() >= 8,
    ensures
        r as nat == field_of_digest(digest@),
        r < FIELD_REDUCTION_MODULUS,
{
    le_u64_prefix(digest) % FIELD_REDUCTION_MODULUS
}

/// Hashes `data` and reduces the digest to its field value.
pub fn hash_to_field(data: &[u8]) -> (r: u64)
    ensures
        r as nat == encode_spec(data@),
        r < FIELD_REDUCTION_MODULUS,
{
    let digest = sha256(data);
    proof {
        vstd::array::array_len_matches_n(&digest);
    }
    digest_to_field(digest.as_slice())
}

/// The encoder is a function of its input: equal byte strings are given equal
/// field values, and every value lies below the reduction modulus.
pub proof fn lemma_encode_deterministic(a: Seq<u8>, b: Seq<u8>)
    requires
        a == b,
    ensures
        encode_spec(a) == encode_spec(b),
        encode_spec(a) < FIELD_REDUCTION_MODULUS,
{
}

} // verus!
