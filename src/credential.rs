//! Verifiable credentials: the bytes an issuer signs, and signature checks.

use crate::digest::{sha256, sha256_of, u64_le, u64_to_le_bytes};
use crate::signature::{ed25519_accepts, ed25519_sign, ed25519_verify, to_array_64};
use vstd::prelude::*;

verus! {

/// The UTF-8 bytes of a string.
pub open spec fn utf8(s: Seq<char>) -> Seq<u8> {
    vstd::utf8::encode_utf8(s)
}

/// The bytes an issuer signs: the holder, the issuer, then the issue and
/// expiry dates as eight little-endian bytes each.
pub open spec fn signing_message(holder: Seq<u8>, issuer: Seq<u8>, issue_date: u64, expiry_date: u64) -> Seq<u8> {
    holder + issuer + u64_le(issue_date) + u64_le(expiry_date)
}

/// The claims folded into bytes: each key, then its value, in list order.
pub open spec fn claims_bytes(claims: Seq<(String, String)>) -> Seq<u8>
    decreases claims.len(),
{
    if claims.len() == 0 {
        Seq::empty()
    } else {
        claims_bytes(claims.drop_last()) + utf8(claims.last().0@) + utf8(claims.last().1@)
    }
}

/// Appends `bytes` to `out`.
pub fn append_bytes(out: &mut Vec<u8>, bytes: &[u8])
    ensures
        final(out)@ == old(out)@ + bytes@,
{
    let mut i: usize = 0;
    while i < bytes.len()
        invariant
            i <= bytes@.len(),
            out@ == old(out)@ + bytes@.take(i as int),
        decreases bytes@.len() - i,
    {
        out.push(bytes[i]);
        i = i + 1;
        assert(out@ =~= old(out)@ + bytes@.take(i as int));
    }
    assert(bytes@.take(i as int) =~= bytes@);
}

/// The bytes an issuer signs for a credential with these fields.
pub fn signing_message_bytes(holder: &[u8], issuer: &[u8], issue_date: u64, expiry_date: u64) -> (r: Vec<u8>)
    ensures
        r@ == signing_message(holder@, issuer@, issue_date, expiry_date),
{
    let mut out: Vec<u8> = Vec::new();
    append_bytes(&mut out, holder);
    append_bytes(&mut out, issuer);
    let issue = u64_to_le_bytes(issue_date);
    append_bytes(&mut out, issue.as_slice());
    let expiry = u64_to_le_bytes(expiry_date);
    append_bytes(&mut out, expiry.as_slice());
    assert(out@ =~= signing_message(holder@, issuer@, issue_date, expiry_date));
    out
}

/// The SHA-256 digest of the bytes an issuer signs.
pub fn signing_digest(holder: &[u8], issuer: &[u8], issue_date: u64, expiry_date: u64) -> (r: [u8; 32])
    ensures
        r@ == sha256_of(signing_message(holder@, issuer@, issue_date, expiry_date)),
{
    let message = signing_message_bytes(holder, issuer, issue_date, expiry_date);
    sha256(message.as_slice())
}

/// Whether `now` lies in the closed interval from the issue date to the
/// expiry date.
pub open spec fn within_validity(issue_date: u64, expiry_date: u64, now: u64) -> bool {
    issue_date <= now && now <= expiry_date
}

/// Whether `now` lies in the closed interval from the issue date to the
/// expiry date.
pub fn within_validity_at(issue_date: u64, expiry_date: u64, now: u64) -> (r: bool)
    ensures
        r == within_validity(issue_date, expiry_date, now),
{
    issue_date <= now && now <= expiry_date
}

/// A signed, time-bounded statement by an issuer about a holder.
#[derive(Clone, Debug)]
pub struct VerifiableCredential {
    pub holder_id: String,
    pub issuer: String,
    pub issue_date: u64,
    pub expiry_date: u64,
    pub claims: Vec<(String, String)>,
    /// The issuer's Ed25519 signature; sixty-four bytes when well formed.
    pub signature: Vec<u8>,
}

impl VerifiableCredential {
    /// The bytes whose digest the issuer signs: holder, issuer and the two
    /// dates. The claims are not part of it.
    pub open spec fn message(&self) -> Seq<u8> {
        signing_message(utf8(self.holder_id@), utf8(self.issuer@), self.issue_date, self.expiry_date)
    }

    /// The bytes that bind a credential into a proof: its message, then the
    /// claims.
    pub open spec fn binding_message(&self) -> Seq<u8> {
        self.message() + claims_bytes(self.claims@)
    }

    /// The SHA-256 digest of the credential's message, which the issuer signs.
    pub fn message_hash(&self) -> (r: [u8; 32])
        ensures
            r@ == sha256_of(self.message()),
    {
        signing_digest(
            self.holder_id.as_str().as_bytes(),
            self.issuer.as_str().as_bytes(),
            self.issue_date,
            self.expiry_date,
        )
    }

    /// The SHA-256 digest of the credential's message with its claims folded
    /// in.
    pub fn binding_hash(&self) -> (r: [u8; 32])
        ensures
            r@ == sha256_of(self.binding_message()),
    {
        let mut out = signing_message_bytes(
            self.holder_id.as_str().as_bytes(),
            self.issuer.as_str().as_bytes(),
            self.issue_date,
            self.expiry_date,
        );
        let mut i: usize = 0;
        while i < self.claims.len()
            invariant
                i <= self.claims@.len(),
                out@ == signing_message(
                    utf8(self.holder_id@),
                    utf8(self.issuer@),
                    self.issue_date,
                    self.expiry_date,
                ) + claims_bytes(self.claims@.take(i as int)),
            decreases self.claims@.len() - i,
        {
            let ghost before = out@;
            append_bytes(&mut out, self.claims[i].0.as_str().as_bytes());
            append_bytes(&mut out, self.claims[i].1.as_str().as_bytes());
            proof {
                let taken = self.claims@.take(i + 1);
                assert(taken.drop_last() =~= self.claims@.take(i as int));
                assert(taken.last() == self.claims@[i as int]);
            }
            i = i + 1;
            assert(out@ =~= signing_message(
                utf8(self.holder_id@),
                utf8(self.issuer@),
                self.issue_date,
                self.expiry_date,
            ) + claims_bytes(self.claims@.take(i as int)));
        }
        assert(self.claims@.take(i as int) =~= self.claims@);
        sha256(out.as_slice())
    }

    /// Whether the credential carries a sixty-four-byte signature that the
    /// issuer's public key accepts on its message hash.
    pub open spec fn signature_valid(&self, issuer_pubkey: Seq<u8>) -> bool {
        self.signature@.len() == 64 && ed25519_accepts(
            issuer_pubkey,
            sha256_of(self.message()),
            self.signature@,
        )
    }

    /// Checks the issuer's signature; fails closed on a signature of the wrong
    /// length.
    pub fn verify_signature(&self, issuer_pubkey: &[u8; 32]) -> (r: bool)
        ensures
            r == self.signature_valid(issuer_pubkey@),
    {
        if self.signature.len() != 64 {
            return false;
        }
        let message = self.message_hash();
        let signature = to_array_64(self.signature.as_slice());
        ed25519_verify(issuer_pubkey, message.as_slice(), &signature)
    }

    /// The issuer's signature on the credential's message hash.
    pub fn sign(&self, issuer_secret: &[u8; 32]) -> (r: Vec<u8>)
        ensures
            r@ == crate::signature::ed25519_signature_of(issuer_secret@, sha256_of(self.message())),
            ed25519_accepts(
                crate::signature::ed25519_public_of(issuer_secret@),
                sha256_of(self.message()),
                r@,
            ),
    {
        let message = self.message_hash();
        let signature = ed25519_sign(issuer_secret, message.as_slice());
        let mut out: Vec<u8> = Vec::new();
        append_bytes(&mut out, signature.as_slice());
        out
    }
}

/// The signed message binds each of its fields: a credential that differs
/// from another in exactly one of holder, issuer, issue date and expiry date
/// has another message, so a signature on the one is a signature on other
/// bytes than the other.
pub proof fn lemma_signing_message_binds_fields(
    holder: Seq<u8>,
    issuer: Seq<u8>,
    issue_date: u64,
    expiry_date: u64,
    holder2: Seq<u8>,
    issuer2: Seq<u8>,
    issue_date2: u64,
    expiry_date2: u64,
)
    requires
        (holder != holder2 && issuer == issuer2 && issue_date == issue_date2 && expiry_date
            == expiry_date2) || (holder == holder2 && issuer != issuer2 && issue_date == issue_date2
            && expiry_date == expiry_date2) || (holder == holder2 && issuer == issuer2 && issue_date
            != issue_date2 && expiry_date == expiry_date2) || (holder == holder2 && issuer == issuer2
            && issue_date == issue_date2 && expiry_date != expiry_date2),
    ensures
        signing_message(holder, issuer, issue_date, expiry_date) != signing_message(
            holder2,
            issuer2,
            issue_date2,
            expiry_date2,
        ),
{
    let m1 = signing_message(holder, issuer, issue_date, expiry_date);
    let m2 = signing_message(holder2, issuer2, issue_date2, expiry_date2);
    crate::digest::lemma_u64_le_len(issue_date);
    crate::digest::lemma_u64_le_len(expiry_date);
    crate::digest::lemma_u64_le_len(issue_date2);
    crate::digest::lemma_u64_le_len(expiry_date2);
    if m1 == m2 {
        if holder != holder2 || issuer != issuer2 {
            let tail = issuer + u64_le(issue_date) + u64_le(expiry_date);
            let tail2 = issuer2 + u64_le(issue_date2) + u64_le(expiry_date2);
            assert(m1 =~= holder + tail);
            assert(m2 =~= holder2 + tail2);
            if holder.len() != holder2.len() {
                assert(m1.len() != m2.len());
            } else if holder != holder2 {
                let i = choose|i: int| 0 <= i < holder.len() && holder[i] != holder2[i];
                if !(0 <= i < holder.len() && holder[i] != holder2[i]) {
                    assert(holder =~= holder2);
                }
                assert(m1[i] == holder[i]);
                assert(m2[i] == holder2[i]);
            } else {
                let d = u64_le(issue_date) + u64_le(expiry_date);
                assert(m1 =~= (holder + issuer) + d);
                assert(m2 =~= (holder + issuer2) + d);
                if issuer.len() != issuer2.len() {
                    assert(m1.len() != m2.len());
                } else {
                    let i = choose|i: int| 0 <= i < issuer.len() && issuer[i] != issuer2[i];
                    if !(0 <= i < issuer.len() && issuer[i] != issuer2[i]) {
                        assert(issuer =~= issuer2);
                    }
                    assert(m1[holder.len() + i] == issuer[i]);
                    assert(m2[holder.len() + i] == issuer2[i]);
                }
            }
        } else {
            let p = holder + issuer;
            assert(m1 =~= p + u64_le(issue_date) + u64_le(expiry_date));
            assert(m2 =~= p + u64_le(issue_date2) + u64_le(expiry_date2));
            if issue_date != issue_date2 {
                assert(m1.subrange(p.len() as int, p.len() + 8int) =~= u64_le(issue_date));
                assert(m2.subrange(p.len() as int, p.len() + 8int) =~= u64_le(issue_date2));
                crate::digest::lemma_u64_le_injective(issue_date, issue_date2);
            } else {
                assert(m1.subrange(p.len() + 8int, p.len() + 16int) =~= u64_le(expiry_date));
                assert(m2.subrange(p.len() + 8int, p.len() + 16int) =~= u64_le(expiry_date2));
                crate::digest::lemma_u64_le_injective(expiry_date, expiry_date2);
            }
        }
    }
}

} // verus!
