//! A circuit that proves knowledge of a fixed-length message whose Poseidon
//! hash equals a public digest, over the scalar field of BN256.
//!
//! - [`field`] says what a field element stands for.
//! - [`permutation`] holds the parameters of the permutation: round numbers,
//!   S-box and the constants derived for them.
//! - [`columns`] describes a constraint system by its columns and states
//!   what allocating them does.
//! - [`circuit`] lays the circuit's columns out and configures the
//!   permutation over them.
//! - [`synthesis`] loads the message and decides the steps that hash it and
//!   bind the digest to the public column.
//! - [`digest`] computes the digest that a satisfying instance exposes.
//!
//! The permutation, the sponge around it and the constraint system are
//! those of `halo2_gadgets` and `halo2_proofs`. What is assumed of them is
//! written on the functions that call them.

use vstd::prelude::*;

pub mod circuit;
pub mod columns;
pub mod digest;
pub mod error;
pub mod field;
pub mod permutation;
pub mod synthesis;

pub use crate::circuit::{HashCircuit, HashConfig};
pub use crate::permutation::HashSpec;

verus! {

/// The circuit is sized for `2^K` rows.
pub const K: u32 = 7;

/// The parameter set the circuit is used with: three state words, two of
/// which absorb input.
pub type DefaultHashSpec = HashSpec<3, 2>;

/// The circuit the crate is used for: a message of two words.
pub type DefaultCircuit = HashCircuit<DefaultHashSpec, 3, 2, 2>;

} // verus!
