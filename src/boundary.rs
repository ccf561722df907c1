//! The call surface for hosts: byte strings in, hexadecimal text out through
//! caller-owned buffers, and integer status codes.
//!
//! Text is written followed by a zero byte, and only when it fits together
//! with that terminator; otherwise the buffer is left untouched. Producing
//! operations return `0` or `-1`; checking operations return `1` to accept
//! and `0` to reject, with no distinction between a rejection and malformed
//! input.

use crate::circuit::CircuitKind;
use crate::credential::{signing_digest, signing_message, utf8};
use crate::digest::sha256_of;
use crate::error::ZkError;
use crate::hexcode::{bytes_to_hex, hex_of, hex_to_bytes, hex_value, is_hex_text};
use crate::keystore::{KeyStore, ProofSystem};
use crate::protocol::{
    check_credential_signature,
    compute_public_id,
    generate_credential_proof,
    generate_identity_proof,
    is_hex_of_some_bytes,
    signature_check_spec,
    verify_credential_proof,
    verify_identity_proof,
};
use crate::signature::{
    ed25519_public_key,
    ed25519_public_of,
    ed25519_sign,
    ed25519_signature_of,
    seeded_secret_key,
    seeded_secret_of,
    to_array_32,
};
use vstd::prelude::*;

verus! {

/// Returned by a producing operation that succeeded.
pub const STATUS_OK: i32 = 0;

/// Returned by a producing operation that failed, whatever the cause.
pub const STATUS_FAILED: i32 = -1;

/// Returned by a checking operation that accepts.
pub const VERDICT_ACCEPT: i32 = 1;

/// Returned by a checking operation that rejects, or was given malformed input.
pub const VERDICT_REJECT: i32 = 0;

/// Whether `text` fits a buffer of `capacity` bytes with its terminator.
pub open spec fn fits(text: Seq<char>, capacity: nat) -> bool {
    utf8(text).len() + 1 <= capacity
}

/// The buffer after `text` and its terminator are written at its start.
pub open spec fn written(old_buf: Seq<u8>, text: Seq<char>) -> Seq<u8> {
    utf8(text) + seq![0u8] + old_buf.subrange(utf8(text).len() + 1int, old_buf.len() as int)
}

/// Hexadecimal text of `n` bytes fits exactly the buffers of at least
/// `2 * n + 1` bytes.
pub proof fn lemma_hex_fits(bytes: Seq<u8>, capacity: nat)
    ensures
        fits(hex_of(bytes), capacity) <==> capacity >= 2 * bytes.len() + 1,
{
    crate::hexcode::lemma_hex_of_shape(bytes);
}

/// Writes `text` and a zero byte at the start of `out`, or nothing when they
/// do not fit.
pub fn write_text(text: &str, out: &mut [u8]) -> (r: Result<(), ZkError>)
    ensures
        r is Ok <==> fits(text@, old(out)@.len()),
        r is Ok ==> final(out)@ == written(old(out)@, text@),
        r is Err ==> r == Err::<(), ZkError>(ZkError::BufferTooSmall) && final(out)@ == old(out)@,
{
    let bytes = text.as_bytes();
    if out.len() < 1 || bytes.len() > out.len() - 1 {
        return Err(ZkError::BufferTooSmall);
    }
    let mut i: usize = 0;
    while i < bytes.len()
        invariant
            i <= bytes@.len(),
            bytes@ == utf8(text@),
            bytes@.len() < out@.len(),
            out@.len() == old(out)@.len(),
            forall|j: int| 0 <= j < i ==> out@[j] == bytes@[j],
            forall|j: int| i <= j < out@.len() ==> out@[j] == old(out)@[j],
        decreases bytes@.len() - i,
    {
        out[i] = bytes[i];
        i = i + 1;
    }
    out[i] = 0;
    assert(out@ =~= written(old(out)@, text@));
    Ok(())
}

/// Writes the outcome of a producing operation: its text on success.
pub fn write_outcome(outcome: Result<String, ZkError>, out: &mut [u8]) -> (r: i32)
    ensures
        r == STATUS_OK || r == STATUS_FAILED,
        r == STATUS_OK <==> outcome is Ok && fits(outcome->Ok_0@, old(out)@.len()),
        r == STATUS_OK ==> final(out)@ == written(old(out)@, outcome->Ok_0@),
        r == STATUS_FAILED ==> final(out)@ == old(out)@,
{
    match outcome {
        Ok(text) => match write_text(text.as_str(), out) {
            Ok(()) => STATUS_OK,
            Err(_) => STATUS_FAILED,
        },
        Err(_) => STATUS_FAILED,
    }
}

/// Writes the hexadecimal digest that publishes a secret identifier.
pub fn public_id_into(secret: &[u8], out: &mut [u8]) -> (r: i32)
    ensures
        sha256_of(secret@).len() == 32,
        r == STATUS_OK <==> old(out)@.len() >= 65,
        r == STATUS_OK <==> fits(hex_of(sha256_of(secret@)), old(out)@.len()),
        r == STATUS_OK ==> final(out)@ == written(old(out)@, hex_of(sha256_of(secret@))),
        r != STATUS_OK ==> r == STATUS_FAILED && final(out)@ == old(out)@,
{
    let r = write_outcome(Ok(compute_public_id(secret)), out);
    proof {
        lemma_hex_fits(sha256_of(secret@), old(out)@.len());
    }
    r
}

/// The seed of the issuer key pair drawn when the caller gives none.
pub const DEFAULT_ISSUER_SEED: u64 = 0x1234567890ABCDEF;

/// Draws an issuer key pair from a generator seeded with `seed`, and writes
/// the public key and the secret key as hexadecimal text. Both buffers are
/// checked before either is written; each needs sixty-five bytes.
pub fn issuer_keypair_into(seed: u64, public_out: &mut [u8], secret_out: &mut [u8]) -> (r: i32)
    ensures
        seeded_secret_of(seed).len() == 32,
        ed25519_public_of(seeded_secret_of(seed)).len() == 32,
        r == STATUS_OK || r == STATUS_FAILED,
        r == STATUS_OK <==> old(public_out)@.len() >= 65 && old(secret_out)@.len() >= 65,
        r == STATUS_OK ==> final(public_out)@ == written(
            old(public_out)@,
            hex_of(ed25519_public_of(seeded_secret_of(seed))),
        ) && final(secret_out)@ == written(old(secret_out)@, hex_of(seeded_secret_of(seed))),
        r == STATUS_FAILED ==> final(public_out)@ == old(public_out)@ && final(secret_out)@ == old(
            secret_out,
        )@,
{
    let secret = seeded_secret_key(seed);
    let public = ed25519_public_key(&secret);
    proof {
        vstd::array::array_len_matches_n(&secret);
        vstd::array::array_len_matches_n(&public);
        lemma_hex_fits(secret@, old(secret_out)@.len());
        lemma_hex_fits(public@, old(public_out)@.len());
    }
    let public_text = bytes_to_hex(public.as_slice());
    let secret_text = bytes_to_hex(secret.as_slice());
    if public_out.len() < 65 || secret_out.len() < 65 {
        return STATUS_FAILED;
    }
    let _ = write_text(public_text.as_str(), public_out);
    let _ = write_text(secret_text.as_str(), secret_out);
    STATUS_OK
}

/// Draws the issuer key pair of the default seed; see `issuer_keypair_into`.
pub fn default_issuer_keypair_into(public_out: &mut [u8], secret_out: &mut [u8]) -> (r: i32)
    ensures
        r == STATUS_OK || r == STATUS_FAILED,
        r == STATUS_OK <==> old(public_out)@.len() >= 65 && old(secret_out)@.len() >= 65,
        r == STATUS_OK ==> final(public_out)@ == written(
            old(public_out)@,
            hex_of(ed25519_public_of(seeded_secret_of(DEFAULT_ISSUER_SEED))),
        ) && final(secret_out)@ == written(
            old(secret_out)@,
            hex_of(seeded_secret_of(DEFAULT_ISSUER_SEED)),
        ),
        r == STATUS_FAILED ==> final(public_out)@ == old(public_out)@ && final(secret_out)@ == old(
            secret_out,
        )@,
{
    issuer_keypair_into(DEFAULT_ISSUER_SEED, public_out, secret_out)
}

/// The issuer's signature, as hexadecimal text, on the signed fields of a
/// credential, or why there is none.
pub open spec fn credential_signature_spec(
    holder: Seq<u8>,
    issuer: Seq<u8>,
    issue_date: u64,
    expiry_date: u64,
    issuer_secret: Seq<char>,
) -> Result<Seq<char>, ZkError> {
    if !is_hex_text(issuer_secret) || hex_value(issuer_secret).len() != 32 {
        Err(ZkError::InputMalformed)
    } else {
        Ok(
            hex_of(
                ed25519_signature_of(
                    hex_value(issuer_secret),
                    sha256_of(signing_message(holder, issuer, issue_date, expiry_date)),
                ),
            ),
        )
    }
}

/// Signs the signed fields of a credential with the issuer's secret key,
/// given as hexadecimal text.
pub fn sign_credential(holder: &[u8], issuer: &[u8], issue_date: u64, expiry_date: u64, issuer_secret: &str) -> (r: Result<String, ZkError>)
    ensures
        r is Ok == credential_signature_spec(holder@, issuer@, issue_date, expiry_date, issuer_secret@) is Ok,
        r is Ok ==> r->Ok_0@ == credential_signature_spec(holder@, issuer@, issue_date, expiry_date, issuer_secret@)->Ok_0,
        r is Err ==> r == Err::<String, ZkError>(ZkError::InputMalformed),
        r is Ok ==> r->Ok_0@.len() == 128 && utf8(r->Ok_0@).len() == 128,
{
    let secret_bytes = match hex_to_bytes(issuer_secret) {
        Some(b) => b,
        None => return Err(ZkError::InputMalformed),
    };
    if secret_bytes.len() != 32 {
        return Err(ZkError::InputMalformed);
    }
    let secret = to_array_32(secret_bytes.as_slice());
    let message = signing_digest(holder, issuer, issue_date, expiry_date);
    let signature = ed25519_sign(&secret, message.as_slice());
    proof {
        vstd::array::array_len_matches_n(&signature);
        crate::hexcode::lemma_hex_of_shape(signature@);
    }
    Ok(bytes_to_hex(signature.as_slice()))
}

/// Writes the issuer's signature on the signed fields of a credential.
pub fn credential_signature_into(
    holder: &[u8],
    issuer: &[u8],
    issue_date: u64,
    expiry_date: u64,
    issuer_secret: &str,
    out: &mut [u8],
) -> (r: i32)
    ensures
        ({
            let s = credential_signature_spec(holder@, issuer@, issue_date, expiry_date, issuer_secret@);
            &&& s is Ok ==> s->Ok_0.len() == 128 && utf8(s->Ok_0).len() == 128
            &&& r == STATUS_OK <==> s is Ok && old(out)@.len() >= 129
            &&& r == STATUS_OK <==> s is Ok && fits(s->Ok_0, old(out)@.len())
            &&& r == STATUS_OK ==> final(out)@ == written(old(out)@, s->Ok_0)
            &&& r != STATUS_OK ==> r == STATUS_FAILED && final(out)@ == old(out)@
        }),
{
    let signed = sign_credential(holder, issuer, issue_date, expiry_date, issuer_secret);
    write_outcome(signed, out)
}

/// Accepts exactly when the issuer's key, as hexadecimal text, accepts the
/// signature, as hexadecimal text, on the signed fields of a credential.
pub fn credential_signature_verdict(
    holder: &[u8],
    issuer: &[u8],
    issue_date: u64,
    expiry_date: u64,
    signature: &str,
    issuer_pubkey: &str,
) -> (r: i32)
    ensures
        r == VERDICT_ACCEPT || r == VERDICT_REJECT,
        r == VERDICT_ACCEPT <==> signature_check_spec(
            holder@,
            issuer@,
            issue_date,
            expiry_date,
            signature@,
            issuer_pubkey@,
        ) is Ok,
{
    match check_credential_signature(holder, issuer, issue_date, expiry_date, signature, issuer_pubkey) {
        Ok(()) => VERDICT_ACCEPT,
        Err(_) => VERDICT_REJECT,
    }
}

/// Writes the hexadecimal digest of the signed fields of a credential.
pub fn credential_hash_into(holder: &[u8], issuer: &[u8], issue_date: u64, expiry_date: u64, out: &mut [u8]) -> (r: i32)
    ensures
        ({
            let digest = sha256_of(signing_message(holder@, issuer@, issue_date, expiry_date));
            let text = hex_of(digest);
            &&& digest.len() == 32
            &&& r == STATUS_OK <==> old(out)@.len() >= 65
            &&& r == STATUS_OK <==> fits(text, old(out)@.len())
            &&& r == STATUS_OK ==> final(out)@ == written(old(out)@, text)
            &&& r != STATUS_OK ==> r == STATUS_FAILED && final(out)@ == old(out)@
        }),
{
    let digest = signing_digest(holder, issuer, issue_date, expiry_date);
    proof {
        vstd::array::array_len_matches_n(&digest);
        lemma_hex_fits(digest@, old(out)@.len());
    }
    write_outcome(Ok(bytes_to_hex(digest.as_slice())), out)
}

/// Writes a proof of an identity claim; fails without writing when no key
/// pair for the simple shape is installed.
pub fn identity_proof_into<S: ProofSystem>(
    system: &S,
    store: &KeyStore<S::Keys>,
    secret: &[u8],
    public_id: &str,
    nonce: u64,
    out: &mut [u8],
) -> (r: i32)
    ensures
        r == STATUS_OK || r == STATUS_FAILED,
        r == STATUS_FAILED ==> final(out)@ == old(out)@,
        store.installed() != Some(CircuitKind::SimpleHashCommitment) ==> r == STATUS_FAILED,
        r == STATUS_OK ==> crate::protocol::identity_circuit_spec(secret@, public_id@, nonce) is Ok,
        r == STATUS_OK ==> exists|text: Seq<char>|
            is_hex_of_some_bytes(text) && fits(text, old(out)@.len()) && final(out)@ == written(
                old(out)@,
                text,
            ),
{
    write_outcome(generate_identity_proof(system, store, secret, public_id, nonce), out)
}

/// Accepts an identity proof, or rejects it; rejects when no key pair for the
/// simple shape is installed.
pub fn identity_proof_verdict<S: ProofSystem>(
    system: &S,
    store: &KeyStore<S::Keys>,
    proof: &str,
    public_id: &str,
    nonce: u64,
) -> (r: i32)
    ensures
        r == VERDICT_ACCEPT || r == VERDICT_REJECT,
        store.installed() != Some(CircuitKind::SimpleHashCommitment) ==> r == VERDICT_REJECT,
        r == VERDICT_ACCEPT ==> is_hex_text(proof@) && crate::protocol::identity_inputs_spec(
            public_id@,
            nonce,
        ) is Some,
{
    if verify_identity_proof(system, store, proof, public_id, nonce) {
        VERDICT_ACCEPT
    } else {
        VERDICT_REJECT
    }
}

/// Writes a proof of possession of a credential valid at `now`.
pub fn credential_proof_into<S: ProofSystem>(
    system: &S,
    store: &KeyStore<S::Keys>,
    holder: &[u8],
    issuer: &[u8],
    issue_date: u64,
    expiry_date: u64,
    signature: &str,
    issuer_pubkey: &str,
    now: u64,
    nonce: u64,
    out: &mut [u8],
) -> (r: i32)
    ensures
        r == STATUS_OK || r == STATUS_FAILED,
        r == STATUS_FAILED ==> final(out)@ == old(out)@,
        store.installed() != Some(CircuitKind::CredentialBinding) ==> r == STATUS_FAILED,
        r == STATUS_OK ==> crate::protocol::credential_circuit_spec(
            holder@,
            issuer@,
            issue_date,
            expiry_date,
            signature@,
            issuer_pubkey@,
            now,
            nonce,
        ) is Ok,
        r == STATUS_OK ==> exists|text: Seq<char>|
            is_hex_of_some_bytes(text) && fits(text, old(out)@.len()) && final(out)@ == written(
                old(out)@,
                text,
            ),
{
    write_outcome(
        generate_credential_proof(
            system,
            store,
            holder,
            issuer,
            issue_date,
            expiry_date,
            signature,
            issuer_pubkey,
            now,
            nonce,
        ),
        out,
    )
}

/// Accepts a credential proof, or rejects it; rejects when no key pair for
/// the credential shape is installed.
pub fn credential_proof_verdict<S: ProofSystem>(
    system: &S,
    store: &KeyStore<S::Keys>,
    proof: &str,
    issuer_pubkey: &str,
    nonce: u64,
) -> (r: i32)
    ensures
        r == VERDICT_ACCEPT || r == VERDICT_REJECT,
        store.installed() != Some(CircuitKind::CredentialBinding) ==> r == VERDICT_REJECT,
        r == VERDICT_ACCEPT ==> is_hex_text(proof@) && crate::protocol::credential_inputs_spec(
            issuer_pubkey@,
            nonce,
        ) is Some,
{
    if verify_credential_proof(system, store, proof, issuer_pubkey, nonce) {
        VERDICT_ACCEPT
    } else {
        VERDICT_REJECT
    }
}

} // verus!
