use zkid::boundary::{
    credential_hash_into, credential_signature_into, credential_signature_verdict,
    default_issuer_keypair_into, DEFAULT_ISSUER_SEED,
    issuer_keypair_into, public_id_into, write_text, STATUS_FAILED, STATUS_OK, VERDICT_ACCEPT,
    VERDICT_REJECT,
};
use zkid::credential::{signing_digest, signing_message_bytes, within_validity_at, VerifiableCredential};
use zkid::error::ZkError;
use zkid::hexcode::bytes_to_hex;
use zkid::signature::{ed25519_public_key, seeded_secret_key};

const HOLDER: &[u8] = b"alice@company.com";
const ISSUER: &[u8] = b"issuer.example";
const ISSUE: u64 = 1_700_000_000;
const EXPIRY: u64 = 1_800_000_000;

fn text_of(buf: &[u8]) -> String {
    let end = buf.iter().position(|b| *b == 0).expect("terminator");
    String::from_utf8(buf[..end].to_vec()).unwrap()
}

fn issuer_keys(seed: u64) -> (String, String) {
    let mut public = [0u8; 65];
    let mut secret = [0u8; 65];
    assert_eq!(issuer_keypair_into(seed, &mut public, &mut secret), STATUS_OK);
    (text_of(&public), text_of(&secret))
}

fn sign(secret: &str) -> String {
    let mut out = [0u8; 129];
    assert_eq!(
        credential_signature_into(HOLDER, ISSUER, ISSUE, EXPIRY, secret, &mut out),
        STATUS_OK
    );
    text_of(&out)
}

#[test]
fn signing_message_layout() {
    let m = signing_message_bytes(b"ab", b"c", 1, 0x0102);
    assert_eq!(
        m,
        vec![b'a', b'b', b'c', 1, 0, 0, 0, 0, 0, 0, 0, 2, 1, 0, 0, 0, 0, 0, 0]
    );
}

#[test]
fn credential_hash_matches_fixture() {
    let mut out = [0xaau8; 70];
    assert_eq!(credential_hash_into(HOLDER, ISSUER, ISSUE, EXPIRY, &mut out), STATUS_OK);
    assert_eq!(
        text_of(&out),
        "f5b49d4e478b8fd90673767cc843d9eb740a3f35140265ae8efd8d3a0267cd85"
    );
    assert_eq!(out[65..], [0xaa; 5]);
    assert_eq!(
        bytes_to_hex(&signing_digest(HOLDER, ISSUER, ISSUE, EXPIRY)),
        text_of(&out)
    );
}

#[test]
fn public_id_is_hex_digest_of_secret() {
    let mut out = [0u8; 65];
    assert_eq!(public_id_into(b"alice", &mut out), STATUS_OK);
    assert_eq!(
        text_of(&out),
        "2bd806c97f0e00af1a1fc3328fa763a9269723c8db8fac4f93af71db186d6e90"
    );
}

#[test]
fn outputs_one_byte_short_fail_and_leave_buffer_untouched() {
    let mut out = [7u8; 64];
    assert_eq!(public_id_into(b"alice", &mut out), STATUS_FAILED);
    assert_eq!(out, [7u8; 64]);

    let mut out = [7u8; 64];
    assert_eq!(credential_hash_into(HOLDER, ISSUER, ISSUE, EXPIRY, &mut out), STATUS_FAILED);
    assert_eq!(out, [7u8; 64]);

    let (_, secret) = issuer_keys(9);
    let mut out = [7u8; 128];
    assert_eq!(
        credential_signature_into(HOLDER, ISSUER, ISSUE, EXPIRY, &secret, &mut out),
        STATUS_FAILED
    );
    assert_eq!(out, [7u8; 128]);

    let mut public = [7u8; 64];
    let mut secret_out = [7u8; 65];
    assert_eq!(issuer_keypair_into(9, &mut public, &mut secret_out), STATUS_FAILED);
    assert_eq!(public, [7u8; 64]);
    assert_eq!(secret_out, [7u8; 65]);
}

#[test]
fn write_text_needs_room_for_terminator() {
    let mut out = [9u8; 3];
    assert_eq!(write_text("abc", &mut out), Err(ZkError::BufferTooSmall));
    assert_eq!(out, [9u8; 3]);
    let mut out = [9u8; 5];
    assert_eq!(write_text("abc", &mut out), Ok(()));
    assert_eq!(out, [b'a', b'b', b'c', 0, 9]);
    let mut empty: [u8; 0] = [];
    assert_eq!(write_text("", &mut empty), Err(ZkError::BufferTooSmall));
}

#[test]
fn seeded_keypair_is_reproducible_and_consistent() {
    let (public_a, secret_a) = issuer_keys(42);
    let (public_b, secret_b) = issuer_keys(42);
    let (public_c, _) = issuer_keys(43);
    assert_eq!(public_a, public_b);
    assert_eq!(secret_a, secret_b);
    assert_ne!(public_a, public_c);
    assert_eq!(public_a.len(), 64);
    let secret = seeded_secret_key(42);
    assert_eq!(bytes_to_hex(&secret), secret_a);
    assert_eq!(bytes_to_hex(&ed25519_public_key(&secret)), public_a);
}

#[test]
fn signature_verifies_with_issuer_key() {
    let (public, secret) = issuer_keys(1);
    let signature = sign(&secret);
    assert_eq!(signature.len(), 128);
    assert_eq!(
        credential_signature_verdict(HOLDER, ISSUER, ISSUE, EXPIRY, &signature, &public),
        VERDICT_ACCEPT
    );
}

#[test]
fn altered_fields_are_rejected_with_the_issued_signature() {
    let (public, secret) = issuer_keys(1);
    let signature = sign(&secret);
    let verdict = |h: &[u8], i: &[u8], a: u64, b: u64| {
        credential_signature_verdict(h, i, a, b, &signature, &public)
    };
    assert_eq!(verdict(b"mallory@company.com", ISSUER, ISSUE, EXPIRY), VERDICT_REJECT);
    assert_eq!(verdict(HOLDER, b"other.example", ISSUE, EXPIRY), VERDICT_REJECT);
    assert_eq!(verdict(HOLDER, ISSUER, ISSUE + 1, EXPIRY), VERDICT_REJECT);
    assert_eq!(verdict(HOLDER, ISSUER, ISSUE, EXPIRY + 1), VERDICT_REJECT);
}

#[test]
fn malformed_signature_or_key_is_rejected() {
    let (public, secret) = issuer_keys(1);
    let (other_public, _) = issuer_keys(2);
    let signature = sign(&secret);
    let check = |s: &str, k: &str| credential_signature_verdict(HOLDER, ISSUER, ISSUE, EXPIRY, s, k);
    assert_eq!(check(&signature, &other_public), VERDICT_REJECT);
    assert_eq!(check(&signature[..126], &public), VERDICT_REJECT);
    assert_eq!(check("zz", &public), VERDICT_REJECT);
    assert_eq!(check(&signature, &public[..62]), VERDICT_REJECT);
    assert_eq!(check(&signature, "not hex"), VERDICT_REJECT);
}

#[test]
fn signing_rejects_malformed_secret() {
    let mut out = [5u8; 200];
    assert_eq!(
        credential_signature_into(HOLDER, ISSUER, ISSUE, EXPIRY, "abcd", &mut out),
        STATUS_FAILED
    );
    assert_eq!(
        credential_signature_into(HOLDER, ISSUER, ISSUE, EXPIRY, "xyz", &mut out),
        STATUS_FAILED
    );
    assert_eq!(out, [5u8; 200]);
}

fn credential(claims: Vec<(String, String)>) -> VerifiableCredential {
    VerifiableCredential {
        holder_id: "alice@company.com".to_string(),
        issuer: "issuer.example".to_string(),
        issue_date: ISSUE,
        expiry_date: EXPIRY,
        claims,
        signature: vec![],
    }
}

#[test]
fn message_hash_without_claims_is_the_signing_digest() {
    let vc = credential(vec![]);
    assert_eq!(vc.message_hash(), signing_digest(HOLDER, ISSUER, ISSUE, EXPIRY));
}

#[test]
fn binding_hash_folds_claims_in_order() {
    let a = credential(vec![("role".into(), "engineer".into()), ("team".into(), "zk".into())]);
    let b = credential(vec![("team".into(), "zk".into()), ("role".into(), "engineer".into())]);
    assert_ne!(a.binding_hash(), b.binding_hash());
    let mut bytes = signing_message_bytes(HOLDER, ISSUER, ISSUE, EXPIRY);
    bytes.extend_from_slice(b"roleengineerteamzk");
    assert_eq!(a.binding_hash(), zkid::digest::sha256(&bytes));
    assert_eq!(credential(vec![]).binding_hash(), credential(vec![]).message_hash());
}

#[test]
fn message_hash_excludes_claims() {
    let a = credential(vec![("role".into(), "engineer".into())]);
    let b = credential(vec![]);
    assert_eq!(a.message_hash(), b.message_hash());
    assert_eq!(a.message_hash(), signing_digest(HOLDER, ISSUER, ISSUE, EXPIRY));
}

#[test]
fn credential_signature_round_trip_and_binding() {
    let secret = seeded_secret_key(3);
    let public = ed25519_public_key(&secret);
    let mut vc = credential(vec![("role".into(), "engineer".into())]);
    vc.signature = vc.sign(&secret);
    assert_eq!(vc.signature.len(), 64);
    assert!(vc.verify_signature(&public));

    let mut altered = vc.clone();
    altered.holder_id = "mallory@company.com".to_string();
    assert!(!altered.verify_signature(&public));
    let mut altered = vc.clone();
    altered.issuer = "other.example".to_string();
    assert!(!altered.verify_signature(&public));
    let mut altered = vc.clone();
    altered.issue_date += 1;
    assert!(!altered.verify_signature(&public));
    let mut altered = vc.clone();
    altered.expiry_date -= 1;
    assert!(!altered.verify_signature(&public));
    let mut other_claims = vc.clone();
    other_claims.claims[0].1 = "admin".to_string();
    assert!(other_claims.verify_signature(&public));
}

#[test]
fn credential_signature_matches_boundary_signature() {
    let (public, secret) = issuer_keys(1);
    let text = sign(&secret);
    let mut vc = credential(vec![("role".into(), "engineer".into())]);
    vc.signature = zkid::hexcode::hex_to_bytes(&text).unwrap();
    let key = zkid::signature::to_array_32(&zkid::hexcode::hex_to_bytes(&public).unwrap());
    assert!(vc.verify_signature(&key));
}

#[test]
fn default_issuer_keypair_needs_two_full_buffers() {
    let mut public = [1u8; 65];
    let mut secret = [1u8; 64];
    assert_eq!(default_issuer_keypair_into(&mut public, &mut secret), STATUS_FAILED);
    assert_eq!(public, [1u8; 65]);
    assert_eq!(secret, [1u8; 64]);
    let mut secret = [1u8; 65];
    assert_eq!(default_issuer_keypair_into(&mut public, &mut secret), STATUS_OK);
    let key = seeded_secret_key(DEFAULT_ISSUER_SEED);
    assert_eq!(text_of(&secret), bytes_to_hex(&key));
    assert_eq!(text_of(&public), bytes_to_hex(&ed25519_public_key(&key)));
}

#[test]
fn credential_signature_of_wrong_length_fails_closed() {
    let secret = seeded_secret_key(3);
    let public = ed25519_public_key(&secret);
    let mut vc = credential(vec![]);
    let mut signature = vc.sign(&secret);
    signature.push(0);
    vc.signature = signature;
    assert!(!vc.verify_signature(&public));
    vc.signature = vec![];
    assert!(!vc.verify_signature(&public));
}

#[test]
fn validity_window_is_closed() {
    assert!(within_validity_at(10, 20, 10));
    assert!(within_validity_at(10, 20, 20));
    assert!(!within_validity_at(10, 20, 9));
    assert!(!within_validity_at(10, 20, 21));
}
