//! The digest that a satisfying instance exposes.

use vstd::prelude::*;
use halo2curves::bn256::Fr;
use halo2_gadgets::poseidon::primitives::ConstantLength;
use crate::circuit::{parameter_error, HashCircuit};
use crate::error::CircuitError;
use crate::permutation::HashSpec;

verus! {

/// The Poseidon hash of `message` that `halo2_poseidon::Hash` computes for
/// [`HashSpec`] with a state of `width` words, `rate` of them absorbing, in
/// the domain of messages of this length.
pub uninterp spec fn poseidon_digest(width: nat, rate: nat, message: Seq<Fr>) -> Fr;

/// Calls `halo2_poseidon::Hash::init` and `hash` for [`HashSpec`] and a
/// constant-length domain. Trusted: the digest depends on the width, the
/// rate and the message alone.
#[verifier::external_body]
fn hash<const WIDTH: usize, const RATE: usize, const L: usize>(message: &[Fr; L]) -> (digest: Fr)
    requires
        parameter_error(WIDTH as nat, RATE as nat, L as nat) is None,
    ensures
        digest == poseidon_digest(WIDTH as nat, RATE as nat, message@),
{
    let hasher = halo2_gadgets::poseidon::primitives::Hash::<
        Fr,
        HashSpec<WIDTH, RATE>,
        ConstantLength<L>,
        WIDTH,
        RATE,
    >::init();
    hasher.hash(*message)
}

impl<const WIDTH: usize, const RATE: usize, const L: usize> HashCircuit<
    HashSpec<WIDTH, RATE>,
    WIDTH,
    RATE,
    L,
> {
    /// What [`HashCircuit::digest`] returns: the hash of the message if it
    /// is known, unless the parameters are refused.
    pub open spec fn expected_digest(self) -> Result<Option<Fr>, CircuitError> {
        match parameter_error(WIDTH as nat, RATE as nat, L as nat) {
            Some(e) => Err(e),
            None => Ok(
                match self.message {
                    Some(words) => Some(poseidon_digest(WIDTH as nat, RATE as nat, words@)),
                    None => None,
                },
            ),
        }
    }

    /// The hash of the message: the public value that the circuit binds
    /// its output to. `None` while the message is unknown.
    pub fn digest(&self) -> (r: Result<Option<Fr>, CircuitError>)
        ensures
            r == self.expected_digest(),
    {
        match Self::check_parameters() {
            Err(e) => {
                return Err(e);
            },
            Ok(()) => {},
        }
        match &self.message {
            Some(words) => Ok(Some(hash::<WIDTH, RATE, L>(words))),
            None => Ok(None),
        }
    }
}

/// Hashing the same message twice gives the same digest.
pub proof fn lemma_digest_deterministic<const WIDTH: usize, const RATE: usize, const L: usize>(
    first: HashCircuit<HashSpec<WIDTH, RATE>, WIDTH, RATE, L>,
    second: HashCircuit<HashSpec<WIDTH, RATE>, WIDTH, RATE, L>,
)
    requires
        first.message == second.message,
    ensures
        first.expected_digest() == second.expected_digest(),
{
}

} // verus!
