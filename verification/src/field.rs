//! Elements of the BN256 scalar field, as far as contracts speak of them.

use vstd::prelude::*;
use vstd::arithmetic::power::pow;
use halo2curves::bn256::Fr;

verus! {

/// `halo2curves::bn256::Fr`, carried through as it is: nothing inside it is
/// read here.
#[verifier::external_type_specification]
#[verifier::external_body]
pub struct ExFr(Fr);

/// The order of the field: the prime `r` of BN256.
pub open spec fn modulus() -> nat {
    0x30644e72e131a029b85045b68181585d2833e84879b9709143e1f593f0000001nat
}

/// The integer in `[0, modulus())` that a field element stands for: the
/// number whose little-endian bytes `ff::PrimeField::to_repr` returns.
pub uninterp spec fn field_value(x: Fr) -> nat;

/// `base` raised to `exponent` in the field.
pub open spec fn field_pow(base: nat, exponent: nat) -> nat {
    (pow(base as int, exponent) % (modulus() as int)) as nat
}

/// Calls `ff::Field::pow_vartime` with a one-limb exponent. Trusted: the
/// result stands for `base` raised to `exponent`, reduced modulo the field's
/// order.
#[verifier::external_body]
pub(crate) fn pow_vartime(base: &Fr, exponent: u64) -> (r: Fr)
    ensures
        field_value(r) == field_pow(field_value(*base), exponent as nat),
{
    ff::Field::pow_vartime(base, [exponent])
}

/// A power in the field is a canonical value.
pub proof fn lemma_field_pow_bound(base: nat, exponent: nat)
    ensures
        field_pow(base, exponent) < modulus(),
{
    let p = pow(base as int, exponent);
    let m = modulus() as int;
    assert(0 <= p % m < m) by {
        vstd::arithmetic::div_mod::lemma_mod_bound(p, m);
    }
}

/// Zero and one are fixed by every power but the zeroth of zero.
pub proof fn lemma_field_pow_of_zero_and_one(exponent: nat)
    ensures
        exponent > 0 ==> field_pow(0, exponent) == 0,
        field_pow(1, exponent) == 1,
{
    vstd::arithmetic::power::lemma1_pow(exponent);
    if exponent > 0 {
        vstd::arithmetic::power::lemma0_pow(exponent);
    }
}

} // verus!
