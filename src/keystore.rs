//! The proof-system capability and the store that owns its key pair.

use crate::circuit::{Circuit, CircuitKind};
use crate::error::ZkError;
use vstd::prelude::*;

verus! {

/// The seed of the deterministic randomness used for key setup: repeated
/// setups of one shape give the same keys. Fit for testing, not for a key
/// ceremony.
pub const SETUP_SEED: u64 = 0;

/// What a proof system is asked to prove: a circuit with its values, and the
/// seed of the prover's randomness.
#[derive(Clone, Copy, Debug, PartialEq, Eq, Structural)]
pub struct ProvingRequest {
    pub circuit: Circuit,
    pub seed: u64,
}

/// A zero-knowledge proof system over the circuits of this library.
///
/// Implementations generate keys for a circuit shape, prove a circuit's
/// assignment, verify a proof against public inputs, and turn proofs into
/// canonical bytes and back. Randomness is drawn from a generator seeded with
/// the given seed, so equal arguments give equal results.
pub trait ProofSystem {
    /// The proving key and the prepared verifying key.
    type Keys;

    /// A proof.
    type Proof;

    /// Generates a key pair for the shape of `circuit`, which carries no values.
    fn setup(&self, circuit: &Circuit, seed: u64) -> Option<Self::Keys>;

    /// Proves the assignment of the request's circuit, with randomness seeded
    /// from the request's seed.
    fn prove(&self, keys: &Self::Keys, request: &ProvingRequest) -> Option<Self::Proof>;

    /// The canonical compressed encoding of a proof.
    fn serialize(&self, proof: &Self::Proof) -> Option<Vec<u8>>;

    /// Reads a proof from its canonical compressed encoding.
    fn deserialize(&self, bytes: &[u8]) -> Option<Self::Proof>;

    /// Checks a proof against the public inputs, in circuit order; `None`
    /// when the check itself fails.
    fn verify(&self, keys: &Self::Keys, public_inputs: &[u64], proof: &Self::Proof) -> Option<bool>;
}

/// Holds at most one key pair, with the circuit shape it was set up for.
///
/// Absent at first; installed by a successful `init`, which replaces any
/// earlier pair; removed by `cleanup`.
pub struct KeyStore<K> {
    keys: Option<(CircuitKind, K)>,
}

impl<K> KeyStore<K> {
    /// The shape of the installed key pair, if any.
    pub closed spec fn installed(&self) -> Option<CircuitKind> {
        match self.keys {
            Some(pair) => Some(pair.0),
            None => None,
        }
    }

    /// The installed key pair, if any.
    pub closed spec fn keys_spec(&self) -> Option<K> {
        match self.keys {
            Some(pair) => Some(pair.1),
            None => None,
        }
    }

    /// An empty store.
    pub fn new() -> (r: Self)
        ensures
            r.installed() is None,
            r.keys_spec() is None,
    {
        KeyStore { keys: None }
    }

    /// Whether a key pair is installed.
    pub fn is_initialized(&self) -> (r: bool)
        ensures
            r == self.installed() is Some,
    {
        self.keys.is_some()
    }

    /// Installs a key pair for `kind`, replacing any earlier one.
    pub fn install(&mut self, kind: CircuitKind, keys: K)
        ensures
            final(self).installed() == Some(kind),
            final(self).keys_spec() == Some(keys),
    {
        self.keys = Some((kind, keys));
    }

    /// Removes the key pair; nothing happens when none is installed.
    pub fn cleanup(&mut self)
        ensures
            final(self).installed() is None,
            final(self).keys_spec() is None,
    {
        self.keys = None;
    }

    /// The key pair, when one is installed for `kind`.
    pub fn lookup(&self, kind: CircuitKind) -> (r: Option<&K>)
        ensures
            r is Some <==> self.installed() == Some(kind),
            r is Some ==> self.keys_spec() == Some(*r.unwrap()),
    {
        match &self.keys {
            Some(pair) => {
                if pair.0 == kind {
                    Some(&pair.1)
                } else {
                    None
                }
            },
            None => None,
        }
    }

    /// Sets up keys for `kind` from the unassigned instance of its circuit,
    /// with the fixed setup seed, and installs them. On failure the store is
    /// left as it was.
    pub fn init<S: ProofSystem<Keys = K>>(&mut self, system: &S, kind: CircuitKind) -> (r: Result<(), ZkError>)
        ensures
            r is Ok ==> final(self).installed() == Some(kind) && final(self).keys_spec() is Some,
            r is Err ==> r == Err::<(), ZkError>(ZkError::CryptoOperationFailed) && *final(self) == *old(self),
    {
        let circuit = Circuit::setup_instance(kind);
        match system.setup(&circuit, SETUP_SEED) {
            Some(keys) => {
                self.install(kind, keys);
                Ok(())
            },
            None => Err(ZkError::CryptoOperationFailed),
        }
    }
}

} // verus!
