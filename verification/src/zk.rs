//! The external proof-verification interface.
//!
//! The rules never inspect a zero-knowledge proof: they hand a proof
//! commitment and its public inputs to a verifier registered by the
//! admin and act on the boolean that comes back. The host implements
//! this trait; nothing is assumed of its answer, so every operation
//! is verified for both outcomes.

use vstd::prelude::*;
use crate::hash::Hash32;

verus! {

/// What the host's registered verifier answers.
///
/// `verifier_id` is the identity the admin stored with
/// `set_verifier`, so one host value can dispatch among several
/// registered verifier implementations, as a ledger host dispatches
/// a cross-contract call.
pub trait ProofVerifier {
    /// Evaluates a proof against its public inputs.
    fn verify_proof(&self, verifier_id: u64, proof_hash: Hash32, public_inputs: &Vec<Hash32>) -> bool;
}

/// A reference verifier for tests: accepts every proof whose
/// commitment is not all-zero.
pub struct MockVerifier {
}

impl MockVerifier {
    /// Accepts iff the proof commitment is nonzero.
    pub fn verify(&self, proof_hash: Hash32, _public_inputs: &Vec<Hash32>) -> (r: bool)
        ensures
            r == !proof_hash.spec_is_zero(),
    {
        !proof_hash.is_zero()
    }
}

impl ProofVerifier for MockVerifier {
    fn verify_proof(&self, _verifier_id: u64, proof_hash: Hash32, public_inputs: &Vec<Hash32>) -> bool {
        self.verify(proof_hash, public_inputs)
    }
}

} // verus!
