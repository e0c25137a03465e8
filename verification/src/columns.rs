//! Columns of the constraint system and what allocating them does to it.

use vstd::prelude::*;
use halo2curves::bn256::Fr;
use halo2_proofs::plonk::{Advice, Column, ConstraintSystem, Fixed, Instance};

verus! {

/// A column by kind and index; indices count within a kind.
pub enum ColumnId {
    Advice(nat),
    Fixed(nat),
    Instance(nat),
}

/// What a constraint system holds, as far as this crate reads it.
pub struct Shape {
    /// Number of advice columns allocated.
    pub advice: nat,
    /// Number of fixed columns allocated.
    pub fixed: nat,
    /// Number of instance columns allocated.
    pub instance: nat,
    /// Number of selectors allocated.
    pub selectors: nat,
    /// Number of gates created.
    pub gates: nat,
    /// The columns whose cells may be constrained equal.
    pub equality: Set<ColumnId>,
    /// The fixed columns that may hold global constants, by index.
    pub constants: Set<nat>,
}

/// A constraint system that has no column, selector or gate yet.
pub open spec fn empty_shape() -> Shape {
    Shape {
        advice: 0,
        fixed: 0,
        instance: 0,
        selectors: 0,
        gates: 0,
        equality: Set::empty(),
        constants: Set::empty(),
    }
}

/// A `halo2_proofs::plonk::ConstraintSystem` over the BN256 scalar field.
#[verifier::external_body]
pub struct Constraints {
    pub inner: ConstraintSystem<Fr>,
}

/// An advice column of a constraint system.
#[verifier::external_body]
#[derive(Debug)]
pub struct AdviceColumn {
    pub inner: Column<Advice>,
}

/// A fixed column of a constraint system.
#[verifier::external_body]
#[derive(Debug)]
pub struct FixedColumn {
    pub inner: Column<Fixed>,
}

/// An instance column of a constraint system.
#[verifier::external_body]
#[derive(Debug)]
pub struct InstanceColumn {
    pub inner: Column<Instance>,
}

/// The counters and column lists that a constraint system holds.
pub uninterp spec fn shape_of(cs: Constraints) -> Shape;

/// The index that an advice column was allocated under.
pub uninterp spec fn advice_index(column: AdviceColumn) -> nat;

/// The index that a fixed column was allocated under.
pub uninterp spec fn fixed_index(column: FixedColumn) -> nat;

/// The index that an instance column was allocated under.
pub uninterp spec fn instance_index(column: InstanceColumn) -> nat;

impl Constraints {
    /// Calls `ConstraintSystem::default`. Trusted: the new system is empty.
    #[verifier::external_body]
    pub(crate) fn empty() -> (cs: Constraints)
        ensures
            shape_of(cs) == empty_shape(),
    {
        Constraints { inner: ConstraintSystem::default() }
    }

    /// Calls `ConstraintSystem::advice_column`. Trusted: the column gets the
    /// next advice index and the advice counter goes up by one.
    #[verifier::external_body]
    pub(crate) fn advice_column(&mut self) -> (column: AdviceColumn)
        requires
            shape_of(*old(self)).advice < usize::MAX,
        ensures
            advice_index(column) == shape_of(*old(self)).advice,
            shape_of(*final(self)) == (Shape {
                advice: shape_of(*old(self)).advice + 1,
                ..shape_of(*old(self))
            }),
    {
        AdviceColumn { inner: self.inner.advice_column() }
    }

    /// Calls `ConstraintSystem::fixed_column`. Trusted: the column gets the
    /// next fixed index and the fixed counter goes up by one.
    #[verifier::external_body]
    pub(crate) fn fixed_column(&mut self) -> (column: FixedColumn)
        requires
            shape_of(*old(self)).fixed < usize::MAX,
        ensures
            fixed_index(column) == shape_of(*old(self)).fixed,
            shape_of(*final(self)) == (Shape {
                fixed: shape_of(*old(self)).fixed + 1,
                ..shape_of(*old(self))
            }),
    {
        FixedColumn { inner: self.inner.fixed_column() }
    }

    /// Calls `ConstraintSystem::instance_column`. Trusted: the column gets
    /// the next instance index and the instance counter goes up by one.
    #[verifier::external_body]
    pub(crate) fn instance_column(&mut self) -> (column: InstanceColumn)
        requires
            shape_of(*old(self)).instance < usize::MAX,
        ensures
            instance_index(column) == shape_of(*old(self)).instance,
            shape_of(*final(self)) == (Shape {
                instance: shape_of(*old(self)).instance + 1,
                ..shape_of(*old(self))
            }),
    {
        InstanceColumn { inner: self.inner.instance_column() }
    }

    /// Calls `ConstraintSystem::enable_equality` on an instance column.
    /// Trusted: the column joins those whose cells may be constrained equal.
    #[verifier::external_body]
    pub(crate) fn enable_instance_equality(&mut self, column: &InstanceColumn)
        ensures
            shape_of(*final(self)) == (Shape {
                equality: shape_of(*old(self)).equality.insert(
                    ColumnId::Instance(instance_index(*column)),
                ),
                ..shape_of(*old(self))
            }),
    {
        self.inner.enable_equality(column.inner)
    }

    /// Calls `ConstraintSystem::enable_constant`. Trusted: the column joins
    /// those that may hold constants and, unless it was one of them already,
    /// those whose cells may be constrained equal.
    #[verifier::external_body]
    pub(crate) fn enable_constant(&mut self, column: &FixedColumn)
        ensures
            shape_of(*final(self)) == (Shape {
                constants: shape_of(*old(self)).constants.insert(fixed_index(*column)),
                equality: if shape_of(*old(self)).constants.contains(fixed_index(*column)) {
                    shape_of(*old(self)).equality
                } else {
                    shape_of(*old(self)).equality.insert(ColumnId::Fixed(fixed_index(*column)))
                },
                ..shape_of(*old(self))
            }),
    {
        self.inner.enable_constant(column.inner)
    }
}

} // verus!
