use ark_bn254::{Bn254, Fr};
use ark_groth16::{Groth16, PreparedVerifyingKey, Proof, ProvingKey};
use ark_relations::r1cs::{
    ConstraintSynthesizer, ConstraintSystemRef, LinearCombination, SynthesisError, Variable,
};
use ark_serialize::{CanonicalDeserialize, CanonicalSerialize};
use ark_snark::SNARK;
use ark_std::rand::rngs::StdRng;
use ark_std::rand::SeedableRng;
use zkid::boundary::{
    credential_proof_into, credential_proof_verdict, credential_signature_into,
    identity_proof_into, identity_proof_verdict, issuer_keypair_into, STATUS_FAILED, STATUS_OK,
    VERDICT_ACCEPT, VERDICT_REJECT,
};
use zkid::circuit::{Circuit, CircuitKind, Slot};
use zkid::error::ZkError;
use zkid::keystore::{KeyStore, ProofSystem, ProvingRequest};
use zkid::protocol::{
    compute_public_id, generate_credential_proof, generate_identity_proof, verify_identity_proof,
};

struct Synthesis(Circuit);

impl ConstraintSynthesizer<Fr> for Synthesis {
    fn generate_constraints(self, cs: ConstraintSystemRef<Fr>) -> Result<(), SynthesisError> {
        let circuit = self.0;
        let witness_value = circuit.witness_value();
        let witness = cs.new_witness_variable(|| {
            witness_value.map(Fr::from).ok_or(SynthesisError::AssignmentMissing)
        })?;
        let mut inputs = Vec::new();
        for value in circuit.public_input_values() {
            inputs.push(cs.new_input_variable(|| {
                value.map(Fr::from).ok_or(SynthesisError::AssignmentMissing)
            })?);
        }
        let var = |slot: Slot| match slot {
            Slot::Witness => witness,
            Slot::PublicInput(i) => inputs[i],
        };
        for eq in circuit.constraints() {
            cs.enforce_constraint(
                LinearCombination::zero() + var(eq.left),
                LinearCombination::zero() + Variable::One,
                LinearCombination::zero() + var(eq.right),
            )?;
        }
        Ok(())
    }
}

struct Groth16Bn254;

impl ProofSystem for Groth16Bn254 {
    type Keys = (ProvingKey<Bn254>, PreparedVerifyingKey<Bn254>);
    type Proof = Proof<Bn254>;

    fn setup(&self, circuit: &Circuit, seed: u64) -> Option<Self::Keys> {
        let mut rng = StdRng::seed_from_u64(seed);
        let (pk, vk) = Groth16::<Bn254>::circuit_specific_setup(Synthesis(*circuit), &mut rng).ok()?;
        Some((pk, PreparedVerifyingKey::from(vk)))
    }

    fn prove(&self, keys: &Self::Keys, request: &ProvingRequest) -> Option<Self::Proof> {
        let mut rng = StdRng::seed_from_u64(request.seed);
        Groth16::<Bn254>::prove(&keys.0, Synthesis(request.circuit), &mut rng).ok()
    }

    fn serialize(&self, proof: &Self::Proof) -> Option<Vec<u8>> {
        let mut bytes = Vec::new();
        proof.serialize_compressed(&mut bytes).ok()?;
        Some(bytes)
    }

    fn deserialize(&self, bytes: &[u8]) -> Option<Self::Proof> {
        Proof::<Bn254>::deserialize_compressed(bytes).ok()
    }

    fn verify(&self, keys: &Self::Keys, public_inputs: &[u64], proof: &Self::Proof) -> Option<bool> {
        let inputs: Vec<Fr> = public_inputs.iter().map(|v| Fr::from(*v)).collect();
        Groth16::<Bn254>::verify_with_processed_vk(&keys.1, &inputs, proof).ok()
    }
}

fn store_for(kind: CircuitKind) -> KeyStore<<Groth16Bn254 as ProofSystem>::Keys> {
    let mut store = KeyStore::new();
    assert_eq!(store.init(&Groth16Bn254, kind), Ok(()));
    store
}

const HOLDER: &[u8] = b"alice@company.com";
const ISSUER: &[u8] = b"issuer.example";
const ISSUE: u64 = 1_700_000_000;
const EXPIRY: u64 = 1_800_000_000;

fn text_of(buf: &[u8]) -> String {
    let end = buf.iter().position(|b| *b == 0).expect("terminator");
    String::from_utf8(buf[..end].to_vec()).unwrap()
}

fn issuer_material() -> (String, String) {
    let mut public = [0u8; 65];
    let mut secret = [0u8; 65];
    assert_eq!(issuer_keypair_into(7, &mut public, &mut secret), STATUS_OK);
    let public = text_of(&public);
    let mut signature = [0u8; 129];
    assert_eq!(
        credential_signature_into(HOLDER, ISSUER, ISSUE, EXPIRY, &text_of(&secret), &mut signature),
        STATUS_OK
    );
    (public, text_of(&signature))
}

fn flip_first_digit(text: &str) -> String {
    let mut chars: Vec<char> = text.chars().collect();
    chars[0] = if chars[0] == '0' { '1' } else { '0' };
    chars.into_iter().collect()
}

#[test]
fn identity_proof_round_trip() {
    let store = store_for(CircuitKind::SimpleHashCommitment);
    let public_id = compute_public_id(b"alice");
    let proof = generate_identity_proof(&Groth16Bn254, &store, b"alice", &public_id, 99).unwrap();
    assert!(verify_identity_proof(&Groth16Bn254, &store, &proof, &public_id, 99));
    assert_eq!(
        identity_proof_verdict(&Groth16Bn254, &store, &proof, &public_id, 99),
        VERDICT_ACCEPT
    );
}

#[test]
fn identity_proof_tampering_is_rejected() {
    let store = store_for(CircuitKind::SimpleHashCommitment);
    let public_id = compute_public_id(b"alice");
    let other_id = compute_public_id(b"bob");
    let proof = generate_identity_proof(&Groth16Bn254, &store, b"alice", &public_id, 99).unwrap();
    let verdict = |p: &str, id: &str, n: u64| identity_proof_verdict(&Groth16Bn254, &store, p, id, n);
    assert_eq!(verdict(&proof, &public_id, 100), VERDICT_REJECT);
    assert_eq!(verdict(&proof, &other_id, 99), VERDICT_REJECT);
    assert_eq!(verdict(&flip_first_digit(&proof), &public_id, 99), VERDICT_REJECT);
    assert_eq!(verdict(&proof[..proof.len() - 2], &public_id, 99), VERDICT_REJECT);
    assert_eq!(verdict("not hex", &public_id, 99), VERDICT_REJECT);
    assert_eq!(verdict(&proof, "not hex", 99), VERDICT_REJECT);
}

#[test]
fn identity_proof_flipping_each_byte_is_rejected() {
    let store = store_for(CircuitKind::SimpleHashCommitment);
    let public_id = compute_public_id(b"alice");
    let proof = generate_identity_proof(&Groth16Bn254, &store, b"alice", &public_id, 5).unwrap();
    let bytes = zkid::hexcode::hex_to_bytes(&proof).unwrap();
    for i in (0..bytes.len()).step_by(8) {
        let mut tampered = bytes.clone();
        tampered[i] ^= 0x01;
        let text = zkid::hexcode::bytes_to_hex(&tampered);
        assert!(!verify_identity_proof(&Groth16Bn254, &store, &text, &public_id, 5));
    }
}

#[test]
fn identity_proofs_are_deterministic() {
    let store = store_for(CircuitKind::SimpleHashCommitment);
    let public_id = compute_public_id(b"alice");
    let a = generate_identity_proof(&Groth16Bn254, &store, b"alice", &public_id, 7).unwrap();
    let b = generate_identity_proof(&Groth16Bn254, &store, b"alice", &public_id, 7).unwrap();
    let c = generate_identity_proof(&Groth16Bn254, &store, b"alice", &public_id, 8).unwrap();
    assert_eq!(a, b);
    assert_ne!(a, c);
}

#[test]
fn identity_proof_needs_matching_identifier() {
    let store = store_for(CircuitKind::SimpleHashCommitment);
    let other_id = compute_public_id(b"bob");
    assert_eq!(
        generate_identity_proof(&Groth16Bn254, &store, b"alice", &other_id, 1),
        Err(ZkError::PreconditionFailed)
    );
    assert_eq!(
        generate_identity_proof(&Groth16Bn254, &store, b"alice", "xyz", 1),
        Err(ZkError::InputMalformed)
    );
}

#[test]
fn uninitialized_or_cleaned_store_fails_without_writing() {
    let mut store: KeyStore<<Groth16Bn254 as ProofSystem>::Keys> = KeyStore::new();
    let public_id = compute_public_id(b"alice");
    let mut out = [3u8; 1000];
    assert_eq!(
        identity_proof_into(&Groth16Bn254, &store, b"alice", &public_id, 1, &mut out),
        STATUS_FAILED
    );
    assert_eq!(out, [3u8; 1000]);
    assert_eq!(
        generate_identity_proof(&Groth16Bn254, &store, b"alice", &public_id, 1),
        Err(ZkError::KeyStateInvalid)
    );

    assert_eq!(store.init(&Groth16Bn254, CircuitKind::SimpleHashCommitment), Ok(()));
    let proof = generate_identity_proof(&Groth16Bn254, &store, b"alice", &public_id, 1).unwrap();
    store.cleanup();
    assert!(!store.is_initialized());
    assert_eq!(
        identity_proof_verdict(&Groth16Bn254, &store, &proof, &public_id, 1),
        VERDICT_REJECT
    );
    assert_eq!(
        identity_proof_into(&Groth16Bn254, &store, b"alice", &public_id, 1, &mut out),
        STATUS_FAILED
    );
    assert_eq!(out, [3u8; 1000]);
    store.cleanup();
    assert!(!store.is_initialized());
}

#[test]
fn proof_output_one_byte_short_fails_and_leaves_buffer() {
    let store = store_for(CircuitKind::SimpleHashCommitment);
    let public_id = compute_public_id(b"alice");
    let proof = generate_identity_proof(&Groth16Bn254, &store, b"alice", &public_id, 1).unwrap();
    let mut exact = vec![0u8; proof.len() + 1];
    assert_eq!(
        identity_proof_into(&Groth16Bn254, &store, b"alice", &public_id, 1, &mut exact),
        STATUS_OK
    );
    assert_eq!(text_of(&exact), proof);
    let mut short = vec![4u8; proof.len()];
    assert_eq!(
        identity_proof_into(&Groth16Bn254, &store, b"alice", &public_id, 1, &mut short),
        STATUS_FAILED
    );
    assert_eq!(short, vec![4u8; proof.len()]);
}

#[test]
fn repeated_setup_gives_the_same_keys() {
    let first = store_for(CircuitKind::SimpleHashCommitment);
    let second = store_for(CircuitKind::SimpleHashCommitment);
    let public_id = compute_public_id(b"alice");
    let proof = generate_identity_proof(&Groth16Bn254, &first, b"alice", &public_id, 3).unwrap();
    assert!(verify_identity_proof(&Groth16Bn254, &second, &proof, &public_id, 3));
}

#[test]
fn keys_of_the_other_shape_are_refused() {
    let store = store_for(CircuitKind::CredentialBinding);
    let public_id = compute_public_id(b"alice");
    assert_eq!(
        generate_identity_proof(&Groth16Bn254, &store, b"alice", &public_id, 1),
        Err(ZkError::KeyStateInvalid)
    );
}

#[test]
fn credential_proof_round_trip() {
    let store = store_for(CircuitKind::CredentialBinding);
    let (public, signature) = issuer_material();
    let mut out = [0u8; 1000];
    assert_eq!(
        credential_proof_into(
            &Groth16Bn254, &store, HOLDER, ISSUER, ISSUE, EXPIRY, &signature, &public,
            1_750_000_000, 42, &mut out
        ),
        STATUS_OK
    );
    let proof = text_of(&out);
    assert_eq!(
        credential_proof_verdict(&Groth16Bn254, &store, &proof, &public, 42),
        VERDICT_ACCEPT
    );
}

#[test]
fn credential_proof_tampering_is_rejected() {
    let store = store_for(CircuitKind::CredentialBinding);
    let (public, signature) = issuer_material();
    let proof = generate_credential_proof(
        &Groth16Bn254, &store, HOLDER, ISSUER, ISSUE, EXPIRY, &signature, &public, ISSUE, 42,
    )
    .unwrap();
    let mut other_public = [0u8; 65];
    let mut other_secret = [0u8; 65];
    assert_eq!(issuer_keypair_into(8, &mut other_public, &mut other_secret), STATUS_OK);
    let other_public = text_of(&other_public);
    let verdict = |p: &str, k: &str, n: u64| credential_proof_verdict(&Groth16Bn254, &store, p, k, n);
    assert_eq!(verdict(&proof, &public, 42), VERDICT_ACCEPT);
    assert_eq!(verdict(&proof, &public, 43), VERDICT_REJECT);
    assert_eq!(verdict(&proof, &other_public, 42), VERDICT_REJECT);
    assert_eq!(verdict(&flip_first_digit(&proof), &public, 42), VERDICT_REJECT);
}

#[test]
fn credential_proofs_are_deterministic() {
    let store = store_for(CircuitKind::CredentialBinding);
    let (public, signature) = issuer_material();
    let make = |nonce: u64| {
        generate_credential_proof(
            &Groth16Bn254, &store, HOLDER, ISSUER, ISSUE, EXPIRY, &signature, &public, ISSUE, nonce,
        )
        .unwrap()
    };
    assert_eq!(make(11), make(11));
    assert_ne!(make(11), make(12));
}

#[test]
fn credential_validity_window_boundaries() {
    let store = store_for(CircuitKind::CredentialBinding);
    let (public, signature) = issuer_material();
    let at = |now: u64| {
        generate_credential_proof(
            &Groth16Bn254, &store, HOLDER, ISSUER, ISSUE, EXPIRY, &signature, &public, now, 1,
        )
    };
    assert!(at(ISSUE).is_ok());
    assert!(at(EXPIRY).is_ok());
    assert_eq!(at(EXPIRY + 1), Err(ZkError::PreconditionFailed));
    assert_eq!(at(ISSUE - 1), Err(ZkError::PreconditionFailed));
}

#[test]
fn credential_proof_needs_valid_signature_and_keys() {
    let (public, signature) = issuer_material();
    let empty: KeyStore<<Groth16Bn254 as ProofSystem>::Keys> = KeyStore::new();
    assert_eq!(
        generate_credential_proof(
            &Groth16Bn254, &empty, HOLDER, ISSUER, ISSUE, EXPIRY, &signature, &public, ISSUE, 1,
        ),
        Err(ZkError::KeyStateInvalid)
    );
    assert_eq!(
        generate_credential_proof(
            &Groth16Bn254, &empty, b"mallory", ISSUER, ISSUE, EXPIRY, &signature, &public, ISSUE, 1,
        ),
        Err(ZkError::PreconditionFailed)
    );
    assert_eq!(
        generate_credential_proof(
            &Groth16Bn254, &empty, HOLDER, ISSUER, ISSUE, EXPIRY, "zz", &public, ISSUE, 1,
        ),
        Err(ZkError::InputMalformed)
    );
    assert_eq!(
        credential_proof_verdict(&Groth16Bn254, &empty, "00", &public, 1),
        VERDICT_REJECT
    );
}
