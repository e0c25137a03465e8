//! The permutation's parameters: round numbers, S-box and derived constants.

use vstd::prelude::*;
use halo2curves::bn256::Fr;
use halo2_gadgets::poseidon::primitives::Spec;
use crate::error::CircuitError;
use crate::field::{field_pow, field_value, lemma_field_pow_bound, modulus, pow_vartime};

verus! {

/// Number of rounds that apply the S-box to every state word.
pub const FULL_ROUNDS: usize = 8;

/// Number of rounds that apply the S-box to the first state word only.
pub const PARTIAL_ROUNDS: usize = 56;

/// The exponent of the S-box.
pub const SBOX_EXPONENT: u64 = 5;

/// Poseidon with the fifth-power S-box, 8 full and 56 partial rounds, for a
/// state of `WIDTH` words of which `RATE` absorb input.
#[derive(Debug, Clone, Copy)]
pub struct HashSpec<const WIDTH: usize, const RATE: usize>;

/// Round constants, mixing matrix and its inverse, row by row.
pub struct Constants {
    pub round_constants: Seq<Seq<Fr>>,
    pub mds: Seq<Seq<Fr>>,
    pub mds_inv: Seq<Seq<Fr>>,
}

/// What `halo2_poseidon::generate_constants` derives over the BN256 scalar
/// field for a state of `width` words, with the round numbers and the matrix
/// index of [`HashSpec`].
pub uninterp spec fn derived_constants(width: nat, rate: nat) -> Constants;

/// The rows of a matrix as sequences.
pub open spec fn rows<const WIDTH: usize>(matrix: Seq<[Fr; WIDTH]>) -> Seq<Seq<Fr>> {
    Seq::new(matrix.len(), |i: int| matrix[i]@)
}

/// The constants that a derivation handed out, row by row.
pub open spec fn constants_of<const WIDTH: usize>(
    derived: (Vec<[Fr; WIDTH]>, [[Fr; WIDTH]; WIDTH], [[Fr; WIDTH]; WIDTH]),
) -> Constants {
    Constants {
        round_constants: rows(derived.0@),
        mds: rows(derived.1@),
        mds_inv: rows(derived.2@),
    }
}

/// The parameter sets whose constants the generator is known to derive: the
/// round numbers above are those chosen for three state words.
pub open spec fn supported(width: nat, rate: nat) -> bool {
    width == 3 && rate == 2
}

/// Calls `halo2_poseidon::generate_constants` for [`HashSpec`]. Trusted: the
/// call depends on the width, the round numbers and the matrix index alone,
/// and yields one row of constants for each of the 64 rounds. The generator
/// samples until it has distinct elements with nonzero sums; that it finds
/// them for the supported width is known from running it.
#[verifier::external_body]
fn generate_constants<const WIDTH: usize, const RATE: usize>() -> (r: (
    Vec<[Fr; WIDTH]>,
    [[Fr; WIDTH]; WIDTH],
    [[Fr; WIDTH]; WIDTH],
))
    requires
        supported(WIDTH as nat, RATE as nat),
    ensures
        constants_of(r) == derived_constants(WIDTH as nat, RATE as nat),
        r.0@.len() == FULL_ROUNDS + PARTIAL_ROUNDS,
{
    halo2_gadgets::poseidon::primitives::generate_constants::<
        Fr,
        HashSpec<WIDTH, RATE>,
        WIDTH,
        RATE,
    >()
}

impl<const WIDTH: usize, const RATE: usize> Spec<Fr, WIDTH, RATE> for HashSpec<WIDTH, RATE> {
    /// The number of full rounds, half of them before the partial rounds
    /// and half after.
    fn full_rounds() -> (r: usize)
        ensures
            r == FULL_ROUNDS,
    {
        FULL_ROUNDS
    }

    /// The number of partial rounds.
    fn partial_rounds() -> (r: usize)
        ensures
            r == PARTIAL_ROUNDS,
    {
        PARTIAL_ROUNDS
    }

    /// The S-box: the fifth power in the field.
    fn sbox(val: Fr) -> (r: Fr)
        ensures
            field_value(r) == field_pow(field_value(val), SBOX_EXPONENT as nat),
            field_value(r) < modulus(),
    {
        proof {
            lemma_field_pow_bound(field_value(val), SBOX_EXPONENT as nat);
        }
        pow_vartime(&val, SBOX_EXPONENT)
    }

    /// The index of the mixing matrix among those that the generator
    /// samples: the first.
    fn secure_mds() -> (r: usize)
        ensures
            r == 0,
    {
        0
    }

    /// The round constants, the mixing matrix and its inverse.
    fn constants() -> (r: (Vec<[Fr; WIDTH]>, [[Fr; WIDTH]; WIDTH], [[Fr; WIDTH]; WIDTH]))
        requires
            supported(WIDTH as nat, RATE as nat),
        ensures
            constants_of(r) == derived_constants(WIDTH as nat, RATE as nat),
            r.0@.len() == FULL_ROUNDS + PARTIAL_ROUNDS,
    {
        generate_constants::<WIDTH, RATE>()
    }
}

impl<const WIDTH: usize, const RATE: usize> HashSpec<WIDTH, RATE> {
    /// Whether constants are derived for this width and rate.
    pub fn is_supported() -> (r: bool)
        ensures
            r == supported(WIDTH as nat, RATE as nat),
    {
        WIDTH == 3 && RATE == 2
    }

    /// The constants of [`Spec::constants`], or the reason why this width
    /// and rate have none. To be asked when the parameters are chosen,
    /// before a circuit is built on them.
    pub fn checked_constants() -> (r: Result<
        (Vec<[Fr; WIDTH]>, [[Fr; WIDTH]; WIDTH], [[Fr; WIDTH]; WIDTH]),
        CircuitError,
    >)
        ensures
            match r {
                Ok(derived) => {
                    &&& supported(WIDTH as nat, RATE as nat)
                    &&& constants_of(derived) == derived_constants(WIDTH as nat, RATE as nat)
                    &&& derived.0@.len() == FULL_ROUNDS + PARTIAL_ROUNDS
                },
                Err(e) => !supported(WIDTH as nat, RATE as nat) && e
                    == CircuitError::UnsupportedParameters,
            },
    {
        if Self::is_supported() {
            Ok(Self::constants())
        } else {
            Err(CircuitError::UnsupportedParameters)
        }
    }
}

/// The exponent of the S-box, a prime, does not divide the order of the
/// field's multiplicative group: the S-box permutes the field.
pub proof fn lemma_sbox_exponent_coprime()
    ensures
        SBOX_EXPONENT == 5,
        (modulus() - 1) % (SBOX_EXPONENT as int) == 1,
{
}

/// The rounds are split evenly around the partial rounds, which come in
/// pairs: both numbers are even.
pub proof fn lemma_round_numbers_even()
    ensures
        FULL_ROUNDS % 2 == 0,
        PARTIAL_ROUNDS % 2 == 0,
        FULL_ROUNDS + PARTIAL_ROUNDS == 64,
{
}

/// Two derivations for one width and rate hand out the same round constants
/// and the same matrices.
pub proof fn lemma_constants_deterministic<const WIDTH: usize>(
    first: (Vec<[Fr; WIDTH]>, [[Fr; WIDTH]; WIDTH], [[Fr; WIDTH]; WIDTH]),
    second: (Vec<[Fr; WIDTH]>, [[Fr; WIDTH]; WIDTH], [[Fr; WIDTH]; WIDTH]),
    rate: nat,
)
    requires
        constants_of(first) == derived_constants(WIDTH as nat, rate),
        constants_of(second) == derived_constants(WIDTH as nat, rate),
    ensures
        constants_of(first) == constants_of(second),
        first.0@.len() == second.0@.len(),
        forall|round: int, lane: int|
            0 <= round < first.0@.len() && 0 <= lane < WIDTH ==> #[trigger] first.0@[round]@[lane]
                == second.0@[round]@[lane],
{
    assert(rows(first.0@) == rows(second.0@));
    assert(rows(first.0@).len() == first.0@.len());
    assert(rows(second.0@).len() == second.0@.len());
    assert forall|round: int, lane: int|
        0 <= round < first.0@.len() && 0 <= lane < WIDTH implies #[trigger] first.0@[round]@[lane]
        == second.0@[round]@[lane] by {
        assert(rows(first.0@)[round] == first.0@[round]@);
        assert(rows(second.0@)[round] == second.0@[round]@);
    }
}

} // verus!
