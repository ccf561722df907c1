//! Proof generation and verification for both circuit shapes.
//!
//! Generation runs its steps in a fixed order and stops at the first failure:
//! for credentials the signature check, then the validity window, then the key
//! lookup; for identifiers the key lookup first. Then the values are hashed and
//! encoded, proved with randomness seeded from the nonce, serialised and
//! written as hexadecimal text. Verification recomputes the public inputs in
//! the order the prover used: the identifier or issuer key hash first, the
//! nonce second.

use crate::circuit::{Circuit, CircuitKind};
use crate::credential::{signing_digest, signing_message, within_validity, within_validity_at};
use crate::digest::sha256_of;
use crate::encoder::{encode_spec, hash_to_field};
use crate::error::ZkError;
use crate::hexcode::{bytes_to_hex, hex_of, hex_to_bytes, hex_value, is_hex_text};
use crate::keystore::{KeyStore, ProofSystem, ProvingRequest};
use crate::signature::{ed25519_accepts, ed25519_verify, to_array_32, to_array_64};
use vstd::prelude::*;

verus! {

// ---------------------------------------------------------------------------
// Identifiers
// ---------------------------------------------------------------------------

/// The witness of an identity claim: the encoded digest of the secret.
pub open spec fn identity_witness(secret: Seq<u8>) -> nat {
    encode_spec(sha256_of(secret))
}

/// The circuit that proves an identity claim, or why there is none: the
/// published identifier must be hexadecimal text, and its encoding must equal
/// the witness.
pub open spec fn identity_circuit_spec(secret: Seq<u8>, public_id: Seq<char>, nonce: u64) -> Result<Circuit, ZkError> {
    if !is_hex_text(public_id) {
        Err(ZkError::InputMalformed)
    } else if identity_witness(secret) != encode_spec(hex_value(public_id)) {
        Err(ZkError::PreconditionFailed)
    } else {
        Ok(
            Circuit::SimpleHashCommitment {
                witness: Some(identity_witness(secret) as u64),
                public_id: Some(encode_spec(hex_value(public_id)) as u64),
                nonce: Some(nonce),
            },
        )
    }
}

/// The public inputs a verifier computes for an identity proof.
pub open spec fn identity_inputs_spec(public_id: Seq<char>, nonce: u64) -> Option<Seq<u64>> {
    if is_hex_text(public_id) {
        Some(seq![encode_spec(hex_value(public_id)) as u64, nonce])
    } else {
        None
    }
}

/// The hexadecimal digest that publishes a secret identifier.
pub fn compute_public_id(secret: &[u8]) -> (r: String)
    ensures
        r@ == hex_of(sha256_of(secret@)),
        sha256_of(secret@).len() == 32,
{
    let digest = crate::digest::sha256(secret);
    proof {
        vstd::array::array_len_matches_n(&digest);
    }
    bytes_to_hex(digest.as_slice())
}

/// Builds the circuit for an identity claim.
pub fn identity_circuit(secret: &[u8], public_id: &str, nonce: u64) -> (r: Result<Circuit, ZkError>)
    ensures
        r == identity_circuit_spec(secret@, public_id@, nonce),
        r is Ok ==> r.unwrap().satisfied(),
{
    let digest = crate::digest::sha256(secret);
    let witness = hash_to_field(digest.as_slice());
    let public_bytes = match hex_to_bytes(public_id) {
        Some(bytes) => bytes,
        None => return Err(ZkError::InputMalformed),
    };
    let public_value = hash_to_field(public_bytes.as_slice());
    if witness != public_value {
        return Err(ZkError::PreconditionFailed);
    }
    let c = Circuit::SimpleHashCommitment {
        witness: Some(witness),
        public_id: Some(public_value),
        nonce: Some(nonce),
    };
    proof {
        crate::circuit::lemma_satisfaction(c);
    }
    Ok(c)
}

/// The public inputs for checking an identity proof: the encoded identifier,
/// then the nonce.
pub fn identity_public_inputs(public_id: &str, nonce: u64) -> (r: Option<Vec<u64>>)
    ensures
        r is Some == identity_inputs_spec(public_id@, nonce) is Some,
        r is Some ==> r.unwrap()@ == identity_inputs_spec(public_id@, nonce).unwrap(),
{
    match hex_to_bytes(public_id) {
        Some(bytes) => Some(vec![hash_to_field(bytes.as_slice()), nonce]),
        None => None,
    }
}

// ---------------------------------------------------------------------------
// Credentials
// ---------------------------------------------------------------------------

/// The outcome of checking an issuer's signature, given as hexadecimal text,
/// on the signed fields of a credential.
pub open spec fn signature_check_spec(
    holder: Seq<u8>,
    issuer: Seq<u8>,
    issue_date: u64,
    expiry_date: u64,
    signature: Seq<char>,
    issuer_pubkey: Seq<char>,
) -> Result<(), ZkError> {
    if !is_hex_text(signature) || !is_hex_text(issuer_pubkey) {
        Err(ZkError::InputMalformed)
    } else if hex_value(signature).len() != 64 || hex_value(issuer_pubkey).len() != 32 {
        Err(ZkError::InputMalformed)
    } else if !ed25519_accepts(
        hex_value(issuer_pubkey),
        sha256_of(signing_message(holder, issuer, issue_date, expiry_date)),
        hex_value(signature),
    ) {
        Err(ZkError::PreconditionFailed)
    } else {
        Ok(())
    }
}

/// The circuit that proves possession of a credential, or why there is none.
pub open spec fn credential_circuit_spec(
    holder: Seq<u8>,
    issuer: Seq<u8>,
    issue_date: u64,
    expiry_date: u64,
    signature: Seq<char>,
    issuer_pubkey: Seq<char>,
    now: u64,
    nonce: u64,
) -> Result<Circuit, ZkError> {
    let checked = signature_check_spec(holder, issuer, issue_date, expiry_date, signature, issuer_pubkey);
    if checked is Err {
        Err(checked->Err_0)
    } else if !within_validity(issue_date, expiry_date, now) {
        Err(ZkError::PreconditionFailed)
    } else {
        Ok(
            Circuit::CredentialBinding {
                witness: Some(
                    encode_spec(sha256_of(signing_message(holder, issuer, issue_date, expiry_date))) as u64,
                ),
                issuer_pubkey_hash: Some(encode_spec(hex_value(issuer_pubkey)) as u64),
                nonce: Some(nonce),
            },
        )
    }
}

/// The public inputs a verifier computes for a credential proof.
pub open spec fn credential_inputs_spec(issuer_pubkey: Seq<char>, nonce: u64) -> Option<Seq<u64>> {
    if is_hex_text(issuer_pubkey) {
        Some(seq![encode_spec(hex_value(issuer_pubkey)) as u64, nonce])
    } else {
        None
    }
}

/// Checks an issuer's signature on the signed fields of a credential.
pub fn check_credential_signature(
    holder: &[u8],
    issuer: &[u8],
    issue_date: u64,
    expiry_date: u64,
    signature: &str,
    issuer_pubkey: &str,
) -> (r: Result<(), ZkError>)
    ensures
        r == signature_check_spec(holder@, issuer@, issue_date, expiry_date, signature@, issuer_pubkey@),
{
    let signature_bytes = match hex_to_bytes(signature) {
        Some(bytes) => bytes,
        None => return Err(ZkError::InputMalformed),
    };
    let pubkey_bytes = match hex_to_bytes(issuer_pubkey) {
        Some(bytes) => bytes,
        None => return Err(ZkError::InputMalformed),
    };
    if signature_bytes.len() != 64 || pubkey_bytes.len() != 32 {
        return Err(ZkError::InputMalformed);
    }
    let key = to_array_32(pubkey_bytes.as_slice());
    let sig = to_array_64(signature_bytes.as_slice());
    let message = signing_digest(holder, issuer, issue_date, expiry_date);
    if ed25519_verify(&key, message.as_slice(), &sig) {
        Ok(())
    } else {
        Err(ZkError::PreconditionFailed)
    }
}

/// Checks the signature, then the validity window, and builds the circuit
/// for a credential claim.
pub fn credential_circuit(
    holder: &[u8],
    issuer: &[u8],
    issue_date: u64,
    expiry_date: u64,
    signature: &str,
    issuer_pubkey: &str,
    now: u64,
    nonce: u64,
) -> (r: Result<Circuit, ZkError>)
    ensures
        r == credential_circuit_spec(
            holder@,
            issuer@,
            issue_date,
            expiry_date,
            signature@,
            issuer_pubkey@,
            now,
            nonce,
        ),
        r is Ok ==> r.unwrap().satisfied(),
{
    match check_credential_signature(holder, issuer, issue_date, expiry_date, signature, issuer_pubkey) {
        Ok(()) => {},
        Err(e) => return Err(e),
    }
    if !within_validity_at(issue_date, expiry_date, now) {
        return Err(ZkError::PreconditionFailed);
    }
    let pubkey_bytes = match hex_to_bytes(issuer_pubkey) {
        Some(bytes) => bytes,
        None => return Err(ZkError::InputMalformed),
    };
    let digest = signing_digest(holder, issuer, issue_date, expiry_date);
    let witness = hash_to_field(digest.as_slice());
    let issuer_value = hash_to_field(pubkey_bytes.as_slice());
    let c = Circuit::CredentialBinding {
        witness: Some(witness),
        issuer_pubkey_hash: Some(issuer_value),
        nonce: Some(nonce),
    };
    proof {
        crate::circuit::lemma_satisfaction(c);
    }
    Ok(c)
}

/// The public inputs for checking a credential proof: the encoded issuer key,
/// then the nonce.
pub fn credential_public_inputs(issuer_pubkey: &str, nonce: u64) -> (r: Option<Vec<u64>>)
    ensures
        r is Some == credential_inputs_spec(issuer_pubkey@, nonce) is Some,
        r is Some ==> r.unwrap()@ == credential_inputs_spec(issuer_pubkey@, nonce).unwrap(),
{
    match hex_to_bytes(issuer_pubkey) {
        Some(bytes) => Some(vec![hash_to_field(bytes.as_slice()), nonce]),
        None => None,
    }
}

// ---------------------------------------------------------------------------
// Proving and verifying
// ---------------------------------------------------------------------------

/// The request that proves an identity claim: its circuit, with the prover's
/// randomness seeded from the nonce.
pub open spec fn identity_request_spec(secret: Seq<u8>, public_id: Seq<char>, nonce: u64) -> Result<ProvingRequest, ZkError> {
    match identity_circuit_spec(secret, public_id, nonce) {
        Ok(c) => Ok(ProvingRequest { circuit: c, seed: nonce }),
        Err(e) => Err(e),
    }
}

/// The request that proves a credential claim: its circuit, with the
/// prover's randomness seeded from the nonce.
pub open spec fn credential_request_spec(
    holder: Seq<u8>,
    issuer: Seq<u8>,
    issue_date: u64,
    expiry_date: u64,
    signature: Seq<char>,
    issuer_pubkey: Seq<char>,
    now: u64,
    nonce: u64,
) -> Result<ProvingRequest, ZkError> {
    match credential_circuit_spec(
        holder,
        issuer,
        issue_date,
        expiry_date,
        signature,
        issuer_pubkey,
        now,
        nonce,
    ) {
        Ok(c) => Ok(ProvingRequest { circuit: c, seed: nonce }),
        Err(e) => Err(e),
    }
}

/// Builds the request that proves an identity claim.
pub fn identity_request(secret: &[u8], public_id: &str, nonce: u64) -> (r: Result<ProvingRequest, ZkError>)
    ensures
        r == identity_request_spec(secret@, public_id@, nonce),
{
    match identity_circuit(secret, public_id, nonce) {
        Ok(c) => Ok(ProvingRequest { circuit: c, seed: nonce }),
        Err(e) => Err(e),
    }
}

/// Builds the request that proves a credential claim.
pub fn credential_request(
    holder: &[u8],
    issuer: &[u8],
    issue_date: u64,
    expiry_date: u64,
    signature: &str,
    issuer_pubkey: &str,
    now: u64,
    nonce: u64,
) -> (r: Result<ProvingRequest, ZkError>)
    ensures
        r == credential_request_spec(
            holder@,
            issuer@,
            issue_date,
            expiry_date,
            signature@,
            issuer_pubkey@,
            now,
            nonce,
        ),
{
    match credential_circuit(
        holder,
        issuer,
        issue_date,
        expiry_date,
        signature,
        issuer_pubkey,
        now,
        nonce,
    ) {
        Ok(c) => Ok(ProvingRequest { circuit: c, seed: nonce }),
        Err(e) => Err(e),
    }
}

/// Whether some bytes have `text` as their lowercase hexadecimal form.
pub open spec fn is_hex_of_some_bytes(text: Seq<char>) -> bool {
    exists|bytes: Seq<u8>| text == hex_of(bytes)
}

/// Turns the proof system's serialised proof into hexadecimal text.
pub fn proof_text(serialized: Option<Vec<u8>>) -> (r: Result<String, ZkError>)
    ensures
        serialized is Some ==> r is Ok && r->Ok_0@ == hex_of(serialized->Some_0@),
        serialized is None ==> r == Err::<String, ZkError>(ZkError::CryptoOperationFailed),
{
    match serialized {
        Some(bytes) => Ok(bytes_to_hex(bytes.as_slice())),
        None => Err(ZkError::CryptoOperationFailed),
    }
}

/// Whether the proof system's answer is an acceptance.
pub fn verdict(outcome: Option<bool>) -> (r: bool)
    ensures
        r == (outcome == Some(true)),
{
    match outcome {
        Some(accepted) => accepted,
        None => false,
    }
}

/// Hands a request to the proof system and gives the proof as hexadecimal
/// text.
pub fn prove_request<S: ProofSystem>(system: &S, keys: &S::Keys, request: &ProvingRequest) -> (r: Result<String, ZkError>)
    ensures
        r is Ok ==> is_hex_of_some_bytes(r->Ok_0@),
        r is Err ==> r == Err::<String, ZkError>(ZkError::CryptoOperationFailed),
{
    let proof = match system.prove(keys, request) {
        Some(p) => p,
        None => return Err(ZkError::CryptoOperationFailed),
    };
    proof_text(system.serialize(&proof))
}

/// Reads a proof from hexadecimal text and checks it against the public
/// inputs. Text that is not hexadecimal, or bytes that are not a proof, are
/// rejected.
pub fn check_proof<S: ProofSystem>(system: &S, keys: &S::Keys, proof: &str, public_inputs: &[u64]) -> (r: bool)
    ensures
        r ==> is_hex_text(proof@),
{
    let bytes = match hex_to_bytes(proof) {
        Some(b) => b,
        None => return false,
    };
    let parsed = match system.deserialize(bytes.as_slice()) {
        Some(p) => p,
        None => return false,
    };
    verdict(system.verify(keys, public_inputs, &parsed))
}

/// Proves knowledge of `secret` whose digest is published as `public_id`,
/// bound to `nonce`. Needs a key pair for the simple shape.
pub fn generate_identity_proof<S: ProofSystem>(
    system: &S,
    store: &KeyStore<S::Keys>,
    secret: &[u8],
    public_id: &str,
    nonce: u64,
) -> (r: Result<String, ZkError>)
    ensures
        store.installed() != Some(CircuitKind::SimpleHashCommitment) ==> r == Err::<String, ZkError>(
            ZkError::KeyStateInvalid,
        ),
        store.installed() == Some(CircuitKind::SimpleHashCommitment) && identity_circuit_spec(
            secret@,
            public_id@,
            nonce,
        ) is Err ==> r == Err::<String, ZkError>(
            identity_circuit_spec(secret@, public_id@, nonce)->Err_0,
        ),
        store.installed() == Some(CircuitKind::SimpleHashCommitment) && identity_circuit_spec(
            secret@,
            public_id@,
            nonce,
        ) is Ok ==> r is Ok && is_hex_of_some_bytes(r->Ok_0@) || r == Err::<String, ZkError>(
            ZkError::CryptoOperationFailed,
        ),
{
    let keys = match store.lookup(CircuitKind::SimpleHashCommitment) {
        Some(k) => k,
        None => return Err(ZkError::KeyStateInvalid),
    };
    let request = match identity_request(secret, public_id, nonce) {
        Ok(q) => q,
        Err(e) => return Err(e),
    };
    prove_request(system, keys, &request)
}

/// Checks an identity proof against the published identifier and the nonce.
/// Rejects when no key pair for the simple shape is installed, or when either
/// text is not hexadecimal.
pub fn verify_identity_proof<S: ProofSystem>(
    system: &S,
    store: &KeyStore<S::Keys>,
    proof: &str,
    public_id: &str,
    nonce: u64,
) -> (r: bool)
    ensures
        r ==> store.installed() == Some(CircuitKind::SimpleHashCommitment),
        r ==> is_hex_text(proof@) && identity_inputs_spec(public_id@, nonce) is Some,
{
    let keys = match store.lookup(CircuitKind::SimpleHashCommitment) {
        Some(k) => k,
        None => return false,
    };
    let inputs = match identity_public_inputs(public_id, nonce) {
        Some(v) => v,
        None => return false,
    };
    check_proof(system, keys, proof, inputs.as_slice())
}

/// Proves possession of an issuer-signed credential that is valid at `now`,
/// bound to the issuer's key and to `nonce`. Checks the signature, then the
/// validity window, then looks up the key pair for the credential shape.
pub fn generate_credential_proof<S: ProofSystem>(
    system: &S,
    store: &KeyStore<S::Keys>,
    holder: &[u8],
    issuer: &[u8],
    issue_date: u64,
    expiry_date: u64,
    signature: &str,
    issuer_pubkey: &str,
    now: u64,
    nonce: u64,
) -> (r: Result<String, ZkError>)
    ensures
        ({
            let c = credential_circuit_spec(
                holder@,
                issuer@,
                issue_date,
                expiry_date,
                signature@,
                issuer_pubkey@,
                now,
                nonce,
            );
            &&& c is Err ==> r == Err::<String, ZkError>(c->Err_0)
            &&& c is Ok && store.installed() != Some(CircuitKind::CredentialBinding) ==> r == Err::<
                String,
                ZkError,
            >(ZkError::KeyStateInvalid)
            &&& c is Ok && store.installed() == Some(CircuitKind::CredentialBinding) ==> r is Ok
                && is_hex_of_some_bytes(r->Ok_0@) || r == Err::<String, ZkError>(
                ZkError::CryptoOperationFailed,
            )
        }),
{
    let request = match credential_request(
        holder,
        issuer,
        issue_date,
        expiry_date,
        signature,
        issuer_pubkey,
        now,
        nonce,
    ) {
        Ok(q) => q,
        Err(e) => return Err(e),
    };
    let keys = match store.lookup(CircuitKind::CredentialBinding) {
        Some(k) => k,
        None => return Err(ZkError::KeyStateInvalid),
    };
    prove_request(system, keys, &request)
}

/// Checks a credential proof against the issuer's public key and the nonce.
/// Rejects when no key pair for the credential shape is installed, or when
/// either text is not hexadecimal.
pub fn verify_credential_proof<S: ProofSystem>(
    system: &S,
    store: &KeyStore<S::Keys>,
    proof: &str,
    issuer_pubkey: &str,
    nonce: u64,
) -> (r: bool)
    ensures
        r ==> store.installed() == Some(CircuitKind::CredentialBinding),
        r ==> is_hex_text(proof@) && credential_inputs_spec(issuer_pubkey@, nonce) is Some,
{
    let keys = match store.lookup(CircuitKind::CredentialBinding) {
        Some(k) => k,
        None => return false,
    };
    let inputs = match credential_public_inputs(issuer_pubkey, nonce) {
        Some(v) => v,
        None => return false,
    };
    check_proof(system, keys, proof, inputs.as_slice())
}

// ---------------------------------------------------------------------------
// Laws
// ---------------------------------------------------------------------------

/// A secret always matches the identifier published for it: the claim made
/// with the hexadecimal digest of the secret yields a circuit, whatever the
/// nonce.
pub proof fn lemma_published_identifier_matches(secret: Seq<u8>, nonce: u64)
    ensures
        identity_circuit_spec(secret, hex_of(sha256_of(secret)), nonce) is Ok,
{
    crate::hexcode::lemma_hex_round_trip(sha256_of(secret));
}

/// The prover and the verifier agree on the statement: for every identity
/// claim that can be proved, the public inputs the verifier recomputes from
/// the published identifier and the nonce are exactly the public values of
/// the circuit the prover proved, in the same order, and that circuit is
/// satisfied.
pub proof fn lemma_identity_inputs_agree(secret: Seq<u8>, public_id: Seq<char>, nonce: u64)
    requires
        identity_circuit_spec(secret, public_id, nonce) is Ok,
    ensures
        identity_inputs_spec(public_id, nonce) == Some(
            identity_circuit_spec(secret, public_id, nonce)->Ok_0.public_values(),
        ),
        identity_circuit_spec(secret, public_id, nonce)->Ok_0.satisfied(),
{
    let c = identity_circuit_spec(secret, public_id, nonce)->Ok_0;
    crate::circuit::lemma_satisfaction(c);
    assert(c.public_values() =~= seq![encode_spec(hex_value(public_id)) as u64, nonce]);
}

/// The prover and the verifier agree on the statement for every credential
/// claim that can be proved: the verifier's public inputs from the issuer key
/// and the nonce are the public values of the proved circuit, in order.
pub proof fn lemma_credential_inputs_agree(
    holder: Seq<u8>,
    issuer: Seq<u8>,
    issue_date: u64,
    expiry_date: u64,
    signature: Seq<char>,
    issuer_pubkey: Seq<char>,
    now: u64,
    nonce: u64,
)
    requires
        credential_circuit_spec(
            holder,
            issuer,
            issue_date,
            expiry_date,
            signature,
            issuer_pubkey,
            now,
            nonce,
        ) is Ok,
    ensures
        ({
            let c = credential_circuit_spec(
                holder,
                issuer,
                issue_date,
                expiry_date,
                signature,
                issuer_pubkey,
                now,
                nonce,
            )->Ok_0;
            credential_inputs_spec(issuer_pubkey, nonce) == Some(c.public_values()) && c.satisfied()
        }),
{
    let c = credential_circuit_spec(
        holder,
        issuer,
        issue_date,
        expiry_date,
        signature,
        issuer_pubkey,
        now,
        nonce,
    )->Ok_0;
    crate::circuit::lemma_satisfaction(c);
    assert(c.public_values() =~= seq![encode_spec(hex_value(issuer_pubkey)) as u64, nonce]);
}

/// A verifier given another nonce, or an identifier or issuer key that
/// encodes to another value, checks the proof against other public inputs
/// than those it was made for.
pub proof fn lemma_public_inputs_distinguish(text_a: Seq<char>, nonce_a: u64, text_b: Seq<char>, nonce_b: u64)
    requires
        is_hex_text(text_a),
        is_hex_text(text_b),
        nonce_a != nonce_b || encode_spec(hex_value(text_a)) != encode_spec(hex_value(text_b)),
    ensures
        identity_inputs_spec(text_a, nonce_a) != identity_inputs_spec(text_b, nonce_b),
        credential_inputs_spec(text_a, nonce_a) != credential_inputs_spec(text_b, nonce_b),
{
    crate::encoder::lemma_encode_deterministic(hex_value(text_a), hex_value(text_a));
    crate::encoder::lemma_encode_deterministic(hex_value(text_b), hex_value(text_b));
    let a = identity_inputs_spec(text_a, nonce_a)->Some_0;
    let b = identity_inputs_spec(text_b, nonce_b)->Some_0;
    assert(a[0] != b[0] || a[1] != b[1]);
}

/// The validity window is closed at both ends: a credential can be proved
/// at its issue date and at its expiry date, and at neither the moment
/// before the one nor the moment after the other.
pub proof fn lemma_validity_window_closed(issue_date: u64, expiry_date: u64)
    requires
        issue_date <= expiry_date,
    ensures
        within_validity(issue_date, expiry_date, issue_date),
        within_validity(issue_date, expiry_date, expiry_date),
        expiry_date < u64::MAX ==> !within_validity(issue_date, expiry_date, (expiry_date + 1) as u64),
        issue_date > 0 ==> !within_validity(issue_date, expiry_date, (issue_date - 1) as u64),
{
}

/// What the prover is asked for is a function of the claim and the nonce:
/// equal claims and nonces give equal requests, and the nonce is the seed of
/// the prover's randomness. Proof bytes therefore repeat exactly when the same
/// witness is proved with the same nonce under the same keys.
pub proof fn lemma_identity_request_deterministic(
    secret: Seq<u8>,
    public_id: Seq<char>,
    secret2: Seq<u8>,
    public_id2: Seq<char>,
    nonce: u64,
)
    requires
        secret == secret2,
        public_id == public_id2,
        identity_request_spec(secret, public_id, nonce) is Ok,
    ensures
        identity_request_spec(secret, public_id, nonce) == identity_request_spec(
            secret2,
            public_id2,
            nonce,
        ),
        identity_request_spec(secret, public_id, nonce)->Ok_0.seed == nonce,
{
}

/// A credential's proving request does not depend on the time of proving:
/// two moments inside the validity window give the same request, seeded from
/// the nonce, and so the same proof bytes under the same keys.
pub proof fn lemma_credential_request_ignores_time(
    holder: Seq<u8>,
    issuer: Seq<u8>,
    issue_date: u64,
    expiry_date: u64,
    signature: Seq<char>,
    issuer_pubkey: Seq<char>,
    now: u64,
    now2: u64,
    nonce: u64,
)
    requires
        credential_request_spec(
            holder,
            issuer,
            issue_date,
            expiry_date,
            signature,
            issuer_pubkey,
            now,
            nonce,
        ) is Ok,
        within_validity(issue_date, expiry_date, now2),
    ensures
        credential_request_spec(
            holder,
            issuer,
            issue_date,
            expiry_date,
            signature,
            issuer_pubkey,
            now,
            nonce,
        ) == credential_request_spec(
            holder,
            issuer,
            issue_date,
            expiry_date,
            signature,
            issuer_pubkey,
            now2,
            nonce,
        ),
        credential_request_spec(
            holder,
            issuer,
            issue_date,
            expiry_date,
            signature,
            issuer_pubkey,
            now,
            nonce,
        )->Ok_0.seed == nonce,
{
}

} // verus!
