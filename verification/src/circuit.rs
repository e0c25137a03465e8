//! The circuit, its configuration and the layout of its columns.

use vstd::prelude::*;
use core::marker::PhantomData;
use halo2curves::bn256::Fr;
use halo2_gadgets::poseidon::{Pow5Chip, Pow5Config};
use halo2_proofs::plonk::{Advice, Column, Fixed};
use crate::columns::{
    advice_index, empty_shape, fixed_index, instance_index, shape_of, AdviceColumn, ColumnId,
    Constraints, FixedColumn, InstanceColumn, Shape,
};
use crate::error::CircuitError;
use crate::permutation::{supported, HashSpec};

verus! {

/// A message of `L` field elements to be hashed by a permutation of `WIDTH`
/// words of which `RATE` absorb input, with the parameters `S`. Without a
/// message the circuit only fixes the shape.
pub struct HashCircuit<S, const WIDTH: usize, const RATE: usize, const L: usize> {
    pub message: Option<[Fr; L]>,
    pub _spec: PhantomData<S>,
}

impl<S, const WIDTH: usize, const RATE: usize, const L: usize> Clone for HashCircuit<
    S,
    WIDTH,
    RATE,
    L,
> {
    fn clone(&self) -> (r: Self)
        ensures
            r == *self,
    {
        Self { message: self.message, _spec: PhantomData }
    }
}

impl<S, const WIDTH: usize, const RATE: usize, const L: usize> Copy for HashCircuit<
    S,
    WIDTH,
    RATE,
    L,
> {

}

/// A `halo2_gadgets::poseidon::Pow5Config`: the permutation's columns,
/// selectors and constants.
#[verifier::external_body]
#[derive(Debug)]
pub struct PermutationConfig<const WIDTH: usize, const RATE: usize> {
    pub inner: Pow5Config<Fr, WIDTH, RATE>,
}

/// The columns that synthesis writes to and the permutation's configuration.
#[derive(Debug)]
pub struct HashConfig<const WIDTH: usize, const RATE: usize, const L: usize> {
    /// The columns that take the message, one word each.
    pub input: Vec<AdviceColumn>,
    /// The column that holds the public digest.
    pub expected: InstanceColumn,
    pub poseidon_config: PermutationConfig<WIDTH, RATE>,
}

/// Why a width, rate and message length are refused, if they are.
pub open spec fn parameter_error(width: nat, rate: nat, len: nat) -> Option<CircuitError> {
    if !supported(width, rate) {
        Some(CircuitError::UnsupportedParameters)
    } else if len == 0 {
        Some(CircuitError::EmptyMessage)
    } else if len > rate {
        Some(CircuitError::MessageTooLong)
    } else {
        None
    }
}

/// A message longer than the rate is refused, whatever the width; with
/// supported width and rate, for its length.
pub proof fn lemma_long_message_refused(width: nat, rate: nat, len: nat)
    requires
        len > rate,
    ensures
        parameter_error(width, rate, len) is Some,
        supported(width, rate) ==> parameter_error(width, rate, len) == Some(
            CircuitError::MessageTooLong,
        ),
{
}

/// Parameters that are accepted leave at least one word of capacity and
/// take a message of one block.
pub proof fn lemma_accepted_parameters(width: nat, rate: nat, len: nat)
    requires
        parameter_error(width, rate, len) is None,
    ensures
        width > rate,
        1 <= len <= rate,
{
}

/// The ids of the advice columns with indices in `[from, to)`.
pub open spec fn advice_range(from: nat, to: nat) -> Set<ColumnId> {
    Set::new(|id: ColumnId| exists|i: nat| from <= i < to && id == ColumnId::Advice(i))
}

/// The ids of the fixed columns with indices in `[from, to)`.
pub open spec fn fixed_range(from: nat, to: nat) -> Set<ColumnId> {
    Set::new(|id: ColumnId| exists|i: nat| from <= i < to && id == ColumnId::Fixed(i))
}

/// The ids of the given advice columns.
pub open spec fn advice_ids(columns: Seq<AdviceColumn>) -> Set<ColumnId> {
    Set::new(
        |id: ColumnId|
            exists|i: int|
                0 <= i < columns.len() && id == ColumnId::Advice(
                    advice_index(#[trigger] columns[i]),
                ),
    )
}

/// The ids of the given fixed columns.
pub open spec fn fixed_ids(columns: Seq<FixedColumn>) -> Set<ColumnId> {
    Set::new(
        |id: ColumnId|
            exists|i: int|
                0 <= i < columns.len() && id == ColumnId::Fixed(
                    fixed_index(#[trigger] columns[i]),
                ),
    )
}

/// The constraint system after the circuit of the given width was
/// configured in `before`: `width` state columns and one for the partial
/// S-box, two tables of `width` round-constant columns, one public column,
/// and the permutation's three selectors and gates. Cells may be constrained
/// equal in the state columns, the second table and the public column; the
/// first column of the second table takes constants.
pub open spec fn configured(before: Shape, width: nat) -> Shape {
    Shape {
        advice: before.advice + width + 1,
        fixed: before.fixed + 2 * width,
        instance: before.instance + 1,
        selectors: before.selectors + 3,
        gates: before.gates + 3,
        equality: before.equality.insert(ColumnId::Instance(before.instance)).union(
            advice_range(before.advice, before.advice + width),
        ).union(fixed_range(before.fixed + width, before.fixed + 2 * width)),
        constants: before.constants.insert(before.fixed + width),
    }
}

/// Configuring the circuit takes nothing away: every column, every equality
/// and every constant column of the system before is still there, and what
/// is added does not depend on the message.
pub proof fn lemma_configured_extends(before: Shape, width: nat)
    ensures
        configured(before, width).advice == before.advice + width + 1,
        configured(before, width).fixed == before.fixed + 2 * width,
        configured(before, width).instance == before.instance + 1,
        before.equality.subset_of(configured(before, width).equality),
        before.constants.subset_of(configured(before, width).constants),
        configured(before, width).equality.contains(ColumnId::Instance(before.instance)),
        width > 0 ==> configured(before, width).equality.contains(
            ColumnId::Fixed(before.fixed + width),
        ),
        configured(before, width).constants.contains(before.fixed + width),
{
    if width > 0 {
        let first = before.fixed + width;
        assert(fixed_range(before.fixed + width, before.fixed + 2 * width).contains(
            ColumnId::Fixed(first),
        ));
    }
}

/// Whether the counters of a constraint system leave room for the circuit's
/// columns and selectors.
pub open spec fn has_room(before: Shape, width: nat) -> bool {
    &&& before.advice + width + 1 <= usize::MAX
    &&& before.fixed + 2 * width <= usize::MAX
    &&& before.instance + 1 <= usize::MAX
    &&& before.selectors + 3 <= usize::MAX
}

/// Calls `Pow5Chip::configure` for [`HashSpec`]. Trusted: it enables
/// equality on the state columns and on the second table of round
/// constants, allocates three selectors and creates three gates; it
/// allocates no column.
#[verifier::external_body]
fn configure_permutation<const WIDTH: usize, const RATE: usize>(
    meta: &mut Constraints,
    state: &Vec<AdviceColumn>,
    partial_sbox: &AdviceColumn,
    rc_a: &Vec<FixedColumn>,
    rc_b: &Vec<FixedColumn>,
) -> (config: PermutationConfig<WIDTH, RATE>)
    requires
        supported(WIDTH as nat, RATE as nat),
        state@.len() == WIDTH,
        rc_a@.len() == WIDTH,
        rc_b@.len() == WIDTH,
        forall|i: int|
            0 <= i < state@.len() ==> advice_index(#[trigger] state@[i]) < shape_of(
                *old(meta),
            ).advice,
        advice_index(*partial_sbox) < shape_of(*old(meta)).advice,
        shape_of(*old(meta)).selectors + 3 <= usize::MAX,
    ensures
        shape_of(*final(meta)) == (Shape {
            selectors: shape_of(*old(meta)).selectors + 3,
            gates: shape_of(*old(meta)).gates + 3,
            equality: shape_of(*old(meta)).equality.union(advice_ids(state@)).union(
                fixed_ids(rc_b@),
            ),
            ..shape_of(*old(meta))
        }),
{
    let state: [Column<Advice>; WIDTH] = core::array::from_fn(|i| state[i].inner);
    let rc_a: [Column<Fixed>; WIDTH] = core::array::from_fn(|i| rc_a[i].inner);
    let rc_b: [Column<Fixed>; WIDTH] = core::array::from_fn(|i| rc_b[i].inner);
    let inner = Pow5Chip::configure::<HashSpec<WIDTH, RATE>>(
        &mut meta.inner,
        state,
        partial_sbox.inner,
        rc_a,
        rc_b,
    );
    PermutationConfig { inner }
}

/// Allocates `count` advice columns in a row.
fn advice_columns(meta: &mut Constraints, count: usize) -> (columns: Vec<AdviceColumn>)
    requires
        shape_of(*old(meta)).advice + count <= usize::MAX,
    ensures
        columns@.len() == count,
        forall|i: int|
            0 <= i < count ==> advice_index(#[trigger] columns@[i]) == shape_of(
                *old(meta),
            ).advice + i,
        shape_of(*final(meta)) == (Shape {
            advice: shape_of(*old(meta)).advice + count as nat,
            ..shape_of(*old(meta))
        }),
{
    let mut columns: Vec<AdviceColumn> = Vec::new();
    let mut i: usize = 0;
    while i < count
        invariant
            i <= count,
            columns@.len() == i,
            shape_of(*old(meta)).advice + count <= usize::MAX,
            forall|j: int|
                0 <= j < i ==> advice_index(#[trigger] columns@[j]) == shape_of(
                    *old(meta),
                ).advice + j,
            shape_of(*meta) == (Shape {
                advice: shape_of(*old(meta)).advice + i as nat,
                ..shape_of(*old(meta))
            }),
        decreases count - i,
    {
        let column = meta.advice_column();
        columns.push(column);
        i = i + 1;
    }
    columns
}

/// Allocates `count` fixed columns in a row.
fn fixed_columns(meta: &mut Constraints, count: usize) -> (columns: Vec<FixedColumn>)
    requires
        shape_of(*old(meta)).fixed + count <= usize::MAX,
    ensures
        columns@.len() == count,
        forall|i: int|
            0 <= i < count ==> fixed_index(#[trigger] columns@[i]) == shape_of(
                *old(meta),
            ).fixed + i,
        shape_of(*final(meta)) == (Shape {
            fixed: shape_of(*old(meta)).fixed + count as nat,
            ..shape_of(*old(meta))
        }),
{
    let mut columns: Vec<FixedColumn> = Vec::new();
    let mut i: usize = 0;
    while i < count
        invariant
            i <= count,
            columns@.len() == i,
            shape_of(*old(meta)).fixed + count <= usize::MAX,
            forall|j: int|
                0 <= j < i ==> fixed_index(#[trigger] columns@[j]) == shape_of(
                    *old(meta),
                ).fixed + j,
            shape_of(*meta) == (Shape {
                fixed: shape_of(*old(meta)).fixed + i as nat,
                ..shape_of(*old(meta))
            }),
        decreases count - i,
    {
        let column = meta.fixed_column();
        columns.push(column);
        i = i + 1;
    }
    columns
}

/// Columns allocated in a row from `from` on are the advice columns with
/// indices in `[from, from + columns.len())`.
proof fn lemma_advice_ids(columns: Seq<AdviceColumn>, from: nat)
    requires
        forall|i: int| 0 <= i < columns.len() ==> advice_index(#[trigger] columns[i]) == from + i,
    ensures
        advice_ids(columns) == advice_range(from, from + columns.len()),
{
    assert forall|id: ColumnId| advice_ids(columns).contains(id) implies advice_range(
        from,
        from + columns.len(),
    ).contains(id) by {
        let i = choose|i: int|
            0 <= i < columns.len() && id == ColumnId::Advice(advice_index(#[trigger] columns[i]));
        let k = (from + i) as nat;
        assert(from <= k < from + columns.len() && id == ColumnId::Advice(k));
    }
    assert forall|id: ColumnId| advice_range(from, from + columns.len()).contains(
        id,
    ) implies advice_ids(columns).contains(id) by {
        let k = choose|k: nat| from <= k < from + columns.len() && id == ColumnId::Advice(k);
        let i = k - from;
        assert(0 <= i < columns.len() && id == ColumnId::Advice(advice_index(columns[i])));
    }
    assert(advice_ids(columns) =~= advice_range(from, from + columns.len()));
}

/// Columns allocated in a row from `from` on are the fixed columns with
/// indices in `[from, from + columns.len())`.
proof fn lemma_fixed_ids(columns: Seq<FixedColumn>, from: nat)
    requires
        forall|i: int| 0 <= i < columns.len() ==> fixed_index(#[trigger] columns[i]) == from + i,
    ensures
        fixed_ids(columns) == fixed_range(from, from + columns.len()),
{
    assert forall|id: ColumnId| fixed_ids(columns).contains(id) implies fixed_range(
        from,
        from + columns.len(),
    ).contains(id) by {
        let i = choose|i: int|
            0 <= i < columns.len() && id == ColumnId::Fixed(fixed_index(#[trigger] columns[i]));
        let k = (from + i) as nat;
        assert(from <= k < from + columns.len() && id == ColumnId::Fixed(k));
    }
    assert forall|id: ColumnId| fixed_range(from, from + columns.len()).contains(
        id,
    ) implies fixed_ids(columns).contains(id) by {
        let k = choose|k: nat| from <= k < from + columns.len() && id == ColumnId::Fixed(k);
        let i = k - from;
        assert(0 <= i < columns.len() && id == ColumnId::Fixed(fixed_index(columns[i])));
    }
    assert(fixed_ids(columns) =~= fixed_range(from, from + columns.len()));
}

impl<const WIDTH: usize, const RATE: usize, const L: usize> HashCircuit<
    HashSpec<WIDTH, RATE>,
    WIDTH,
    RATE,
    L,
> {
    /// Declares the circuit's columns in `meta` and configures the
    /// permutation over them. The message is read from the first `L` state
    /// columns. Parameters that are refused leave `meta` as it was.
    pub fn configure(meta: &mut Constraints) -> (r: Result<
        HashConfig<WIDTH, RATE, L>,
        CircuitError,
    >)
        requires
            parameter_error(WIDTH as nat, RATE as nat, L as nat) is None ==> has_room(
                shape_of(*old(meta)),
                WIDTH as nat,
            ),
        ensures
            match r {
                Ok(config) => {
                    &&& parameter_error(WIDTH as nat, RATE as nat, L as nat) is None
                    &&& shape_of(*final(meta)) == configured(shape_of(*old(meta)), WIDTH as nat)
                    &&& config.input@.len() == L
                    &&& forall|i: int|
                        0 <= i < L ==> advice_index(#[trigger] config.input@[i]) == shape_of(
                            *old(meta),
                        ).advice + i
                    &&& instance_index(config.expected) == shape_of(*old(meta)).instance
                },
                Err(e) => {
                    &&& parameter_error(WIDTH as nat, RATE as nat, L as nat) == Some(e)
                    &&& *final(meta) == *old(meta)
                },
            },
    {
        match Self::check_parameters() {
            Err(e) => {
                return Err(e);
            },
            Ok(()) => {},
        }
        let ghost before = shape_of(*meta);
        let mut state = advice_columns(meta, WIDTH);
        let expected = meta.instance_column();
        meta.enable_instance_equality(&expected);
        let partial_sbox = meta.advice_column();
        let rc_a = fixed_columns(meta, WIDTH);
        let rc_b = fixed_columns(meta, WIDTH);
        meta.enable_constant(&rc_b[0]);
        let poseidon_config = configure_permutation::<WIDTH, RATE>(
            meta,
            &state,
            &partial_sbox,
            &rc_a,
            &rc_b,
        );
        proof {
            lemma_advice_ids(state@, before.advice);
            lemma_fixed_ids(rc_b@, before.fixed + WIDTH as nat);
            let first = ColumnId::Fixed(before.fixed + WIDTH as nat);
            assert(fixed_range(
                before.fixed + WIDTH as nat,
                before.fixed + 2 * (WIDTH as nat),
            ).contains(first));
            assert(shape_of(*meta).equality =~= configured(before, WIDTH as nat).equality);
        }
        state.truncate(L);
        Ok(HashConfig { input: state, expected, poseidon_config })
    }

    /// Configures the circuit in a constraint system of its own, which is
    /// empty before.
    pub fn layout() -> (r: Result<(Constraints, HashConfig<WIDTH, RATE, L>), CircuitError>)
        ensures
            match r {
                Ok((meta, config)) => {
                    &&& parameter_error(WIDTH as nat, RATE as nat, L as nat) is None
                    &&& shape_of(meta) == configured(empty_shape(), WIDTH as nat)
                    &&& config.input@.len() == L
                    &&& forall|i: int| 0 <= i < L ==> advice_index(#[trigger] config.input@[i]) == i
                    &&& instance_index(config.expected) == 0
                },
                Err(e) => parameter_error(WIDTH as nat, RATE as nat, L as nat) == Some(e),
            },
    {
        let mut meta = Constraints::empty();
        match Self::configure(&mut meta) {
            Ok(config) => Ok((meta, config)),
            Err(e) => Err(e),
        }
    }

    /// The same circuit with the message unknown.
    pub fn without_witnesses(&self) -> (r: Self)
        ensures
            r.message is None,
            r._spec == self._spec,
    {
        Self { message: None, _spec: PhantomData }
    }

    /// Tells whether the parameters are refused, and why.
    pub fn check_parameters() -> (r: Result<(), CircuitError>)
        ensures
            match r {
                Ok(()) => parameter_error(WIDTH as nat, RATE as nat, L as nat) is None,
                Err(e) => parameter_error(WIDTH as nat, RATE as nat, L as nat) == Some(e),
            },
    {
        if !HashSpec::<WIDTH, RATE>::is_supported() {
            Err(CircuitError::UnsupportedParameters)
        } else if L == 0 {
            Err(CircuitError::EmptyMessage)
        } else if L > RATE {
            Err(CircuitError::MessageTooLong)
        } else {
            Ok(())
        }
    }
}

} // verus!
