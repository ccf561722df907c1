//! The two circuit shapes, as data: their assignments, the order of their
//! public inputs, and the equality constraints they emit.
//!
//! Every value is a `u64`, which the proving system lifts into its scalar
//! field without loss; equality of field elements is therefore equality of
//! these integers.

use vstd::prelude::*;

verus! {

/// Which circuit a key pair was set up for.
#[derive(Clone, Copy, Debug, PartialEq, Eq, Structural)]
pub enum CircuitKind {
    /// Proves that a private digest value equals a published identifier.
    SimpleHashCommitment,
    /// Binds a private credential hash to an issuer key hash and a nonce.
    CredentialBinding,
}

/// A place in a circuit's assignment.
#[derive(Clone, Copy, Debug, PartialEq, Eq, Structural)]
pub enum Slot {
    /// The single private witness.
    Witness,
    /// The public input at this position of the public-input vector.
    PublicInput(usize),
}

/// The constraint `left * 1 == right`.
#[derive(Clone, Copy, Debug, PartialEq, Eq, Structural)]
pub struct Equality {
    pub left: Slot,
    pub right: Slot,
}

/// A circuit of one of the two shapes, with its values, or with none while
/// keys are being set up.
#[derive(Clone, Copy, Debug, PartialEq, Eq, Structural)]
pub enum Circuit {
    /// Proves `witness == public_id`; the nonce is bound only as a public input.
    SimpleHashCommitment { witness: Option<u64>, public_id: Option<u64>, nonce: Option<u64> },
    /// Declares the credential hash and the issuer key hash as part of the
    /// statement, each equal to itself; the nonce is bound only as a public
    /// input.
    CredentialBinding {
        witness: Option<u64>,
        issuer_pubkey_hash: Option<u64>,
        nonce: Option<u64>,
    },
}

/// The number of public inputs of either shape.
pub const PUBLIC_INPUT_COUNT: usize = 2;

impl Circuit {
    /// The shape of the circuit.
    pub open spec fn kind_spec(&self) -> CircuitKind {
        match self {
            Circuit::SimpleHashCommitment { .. } => CircuitKind::SimpleHashCommitment,
            Circuit::CredentialBinding { .. } => CircuitKind::CredentialBinding,
        }
    }

    /// The shape of the circuit.
    pub fn kind(&self) -> (r: CircuitKind)
        ensures
            r == self.kind_spec(),
    {
        match self {
            Circuit::SimpleHashCommitment { .. } => CircuitKind::SimpleHashCommitment,
            Circuit::CredentialBinding { .. } => CircuitKind::CredentialBinding,
        }
    }

    /// The instance of a shape with nothing assigned, from which keys are set up.
    pub open spec fn unassigned(kind: CircuitKind) -> Circuit {
        match kind {
            CircuitKind::SimpleHashCommitment => Circuit::SimpleHashCommitment {
                witness: None,
                public_id: None,
                nonce: None,
            },
            CircuitKind::CredentialBinding => Circuit::CredentialBinding {
                witness: None,
                issuer_pubkey_hash: None,
                nonce: None,
            },
        }
    }

    /// The instance of a shape with nothing assigned.
    pub fn setup_instance(kind: CircuitKind) -> (r: Circuit)
        ensures
            r == Circuit::unassigned(kind),
    {
        match kind {
            CircuitKind::SimpleHashCommitment => Circuit::SimpleHashCommitment {
                witness: None,
                public_id: None,
                nonce: None,
            },
            CircuitKind::CredentialBinding => Circuit::CredentialBinding {
                witness: None,
                issuer_pubkey_hash: None,
                nonce: None,
            },
        }
    }

    /// The private witness value.
    pub open spec fn witness_spec(&self) -> Option<u64> {
        match self {
            Circuit::SimpleHashCommitment { witness, .. } => *witness,
            Circuit::CredentialBinding { witness, .. } => *witness,
        }
    }

    /// The public inputs, in the order that proving and verifying share: the
    /// identifier or issuer key hash first, the nonce second.
    pub open spec fn public_inputs_spec(&self) -> Seq<Option<u64>> {
        match self {
            Circuit::SimpleHashCommitment { public_id, nonce, .. } => seq![*public_id, *nonce],
            Circuit::CredentialBinding { issuer_pubkey_hash, nonce, .. } => seq![
                *issuer_pubkey_hash,
                *nonce,
            ],
        }
    }

    /// The private witness value.
    pub fn witness_value(&self) -> (r: Option<u64>)
        ensures
            r == self.witness_spec(),
    {
        match self {
            Circuit::SimpleHashCommitment { witness, .. } => *witness,
            Circuit::CredentialBinding { witness, .. } => *witness,
        }
    }

    /// The public inputs, in the order that proving and verifying share.
    pub fn public_input_values(&self) -> (r: Vec<Option<u64>>)
        ensures
            r@ == self.public_inputs_spec(),
            r@.len() == PUBLIC_INPUT_COUNT,
    {
        match self {
            Circuit::SimpleHashCommitment { public_id, nonce, .. } => vec![*public_id, *nonce],
            Circuit::CredentialBinding { issuer_pubkey_hash, nonce, .. } => vec![
                *issuer_pubkey_hash,
                *nonce,
            ],
        }
    }

    /// The constraints the shape emits.
    pub open spec fn constraints_spec(&self) -> Seq<Equality> {
        match self {
            Circuit::SimpleHashCommitment { .. } => seq![
                Equality { left: Slot::Witness, right: Slot::PublicInput(0) },
            ],
            Circuit::CredentialBinding { .. } => seq![
                Equality { left: Slot::Witness, right: Slot::Witness },
                Equality { left: Slot::PublicInput(0), right: Slot::PublicInput(0) },
            ],
        }
    }

    /// The constraints the shape emits, each over slots of the assignment.
    pub fn constraints(&self) -> (r: Vec<Equality>)
        ensures
            r@ == self.constraints_spec(),
    {
        match self {
            Circuit::SimpleHashCommitment { .. } => vec![
                Equality { left: Slot::Witness, right: Slot::PublicInput(0) },
            ],
            Circuit::CredentialBinding { .. } => vec![
                Equality { left: Slot::Witness, right: Slot::Witness },
                Equality { left: Slot::PublicInput(0), right: Slot::PublicInput(0) },
            ],
        }
    }

    /// The value in a slot, if assigned.
    pub open spec fn slot_value(&self, slot: Slot) -> Option<u64> {
        match slot {
            Slot::Witness => self.witness_spec(),
            Slot::PublicInput(i) => if i < PUBLIC_INPUT_COUNT {
                self.public_inputs_spec()[i as int]
            } else {
                None
            },
        }
    }

    /// Whether every slot is assigned.
    pub open spec fn is_assigned(&self) -> bool {
        self.witness_spec().is_some() && forall|i: int|
            0 <= i < PUBLIC_INPUT_COUNT ==> (#[trigger] self.public_inputs_spec()[i]).is_some()
    }

    /// Whether the assignment is complete and meets every constraint.
    pub open spec fn satisfied(&self) -> bool {
        &&& self.is_assigned()
        &&& forall|k: int|
            0 <= k < self.constraints_spec().len() ==> #[trigger] self.slot_value(
                self.constraints_spec()[k].left,
            ) == self.slot_value(self.constraints_spec()[k].right)
    }

    /// The public input values of a complete assignment.
    pub open spec fn public_values(&self) -> Seq<u64> {
        self.public_inputs_spec().map_values(|v: Option<u64>| v.unwrap())
    }
}

/// The simple shape is satisfied exactly when its witness equals the public
/// identifier; the credential shape by any complete assignment.
pub proof fn lemma_satisfaction(c: Circuit)
    ensures
        c.satisfied() <==> c.is_assigned() && match c {
            Circuit::SimpleHashCommitment { witness, public_id, .. } => witness == public_id,
            Circuit::CredentialBinding { .. } => true,
        },
{
    if c.is_assigned() {
        match c {
            Circuit::SimpleHashCommitment { witness, public_id, .. } => {
                assert(c.slot_value(c.constraints_spec()[0].left) == witness);
                assert(c.slot_value(c.constraints_spec()[0].right) == public_id);
            },
            Circuit::CredentialBinding { .. } => {},
        }
    }
}

} // verus!
