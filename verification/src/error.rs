//! The ways in which building the circuit fails.

use vstd::prelude::*;
use halo2_proofs::plonk::Error;

verus! {

/// `halo2_proofs::plonk::Error`, carried through as it is.
#[verifier::external_type_specification]
#[verifier::external_body]
pub struct ExError(Error);

/// Why a circuit could not be configured or synthesized. None of these is
/// retried.
#[derive(Debug)]
pub enum CircuitError {
    /// The constants of the permutation are not derived for this width and
    /// rate.
    UnsupportedParameters,
    /// The message has no word.
    EmptyMessage,
    /// The message has more words than one block absorbs.
    MessageTooLong,
    /// The configuration holds fewer input columns than the message has
    /// words.
    TooFewInputColumns,
    /// The number of cells that were loaded differs from the number of
    /// words of the message.
    CellCountMismatch,
    /// The constraint system refused a step; its error is carried as it came.
    Substrate(Error),
}

} // verus!
