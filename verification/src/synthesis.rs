//! Synthesis: loading the message, hashing it and binding the digest.
//!
//! The layouter is driven from outside this crate. [`HashCircuit::synthesize`]
//! says, after each step, which step comes next.

use vstd::prelude::*;
use halo2curves::bn256::Fr;
use halo2_proofs::circuit::{AssignedCell, Region, Value};
use halo2_proofs::plonk::Error;
use crate::circuit::{HashCircuit, HashConfig};
use crate::columns::{AdviceColumn, InstanceColumn};
use crate::error::CircuitError;
use crate::permutation::HashSpec;

verus! {

/// The row of the input columns that takes the message.
pub const MESSAGE_ROW: usize = 0;

/// The row of the public column that holds the digest.
pub const DIGEST_ROW: usize = 0;

/// A `halo2_proofs::circuit::Region` that is being assigned.
#[verifier::external_body]
pub struct MessageRegion<'r> {
    pub inner: Region<'r, Fr>,
}

/// A `halo2_proofs::circuit::AssignedCell` that holds a field element.
#[verifier::external_body]
#[derive(Debug)]
pub struct Cell {
    pub inner: AssignedCell<Fr, Fr>,
}

/// One word of the message on its way into the circuit: word `lane` goes to
/// input column `lane`, at `row`. The value is `None` while the message is
/// unknown.
pub struct Assignment {
    pub lane: usize,
    pub row: usize,
    pub value: Option<Fr>,
}

/// What the step before produced.
pub enum Event {
    /// Nothing was done yet.
    Start,
    /// The region that loads the message was assigned.
    MessageLoaded(Result<Vec<Cell>, Error>),
    /// The message cells were hashed.
    Hashed(Result<Cell, Error>),
    /// The digest was bound to the public column.
    Bound(Result<(), Error>),
}

/// What to do next.
pub enum Action<'a> {
    /// Assign a region with [`HashCircuit::load_message`].
    LoadMessage,
    /// Hash these cells with the permutation's chip.
    Hash { message: Vec<Cell> },
    /// Constrain `digest` equal to the cell of `column` at `row`.
    Bind { digest: Cell, column: &'a InstanceColumn, row: usize },
    /// Synthesis is over, with this result.
    Finish(Result<(), CircuitError>),
}

/// The word of a message at `lane`, if the message is known.
pub open spec fn word_at<const L: usize>(message: Option<[Fr; L]>, lane: int) -> Option<Fr> {
    match message {
        Some(words) => Some(words@[lane]),
        None => None,
    }
}

/// The assignment that loads word `lane` of a message.
pub open spec fn assignment_at<const L: usize>(message: Option<[Fr; L]>, lane: int) -> Assignment {
    Assignment { lane: lane as usize, row: MESSAGE_ROW, value: word_at(message, lane) }
}

/// The step that follows `event` in the synthesis of a message of `len`
/// words: load the message, hash the cells it was loaded into, bind the
/// digest to the public column, finish. The first failure ends synthesis
/// and is handed on as it came.
pub open spec fn next_action<'a>(expected: &'a InstanceColumn, len: nat, event: Event) -> Action<
    'a,
> {
    match event {
        Event::Start => Action::LoadMessage,
        Event::MessageLoaded(Ok(cells)) => if cells@.len() == len {
            Action::Hash { message: cells }
        } else {
            Action::Finish(Err(CircuitError::CellCountMismatch))
        },
        Event::MessageLoaded(Err(e)) => Action::Finish(Err(CircuitError::Substrate(e))),
        Event::Hashed(Ok(digest)) => Action::Bind { digest, column: expected, row: DIGEST_ROW },
        Event::Hashed(Err(e)) => Action::Finish(Err(CircuitError::Substrate(e))),
        Event::Bound(Ok(())) => Action::Finish(Ok(())),
        Event::Bound(Err(e)) => Action::Finish(Err(CircuitError::Substrate(e))),
    }
}

/// A word is loaded to the same column and row whether the message is
/// known or not: the shape of the circuit does not depend on the witness.
pub proof fn lemma_shape_without_witness<const L: usize>(message: Option<[Fr; L]>, lane: int)
    ensures
        assignment_at(message, lane).lane == assignment_at(None::<[Fr; L]>, lane).lane,
        assignment_at(message, lane).row == assignment_at(None::<[Fr; L]>, lane).row,
        assignment_at(None::<[Fr; L]>, lane).value is None,
{
}

/// Calls `Region::assign_advice` with the assignment's row and value, known
/// or unknown. Nothing is promised of the outcome: the layouter behind the
/// region decides it.
#[verifier::external_body]
fn assign_advice(region: &mut MessageRegion, column: &AdviceColumn, assignment: &Assignment) -> (r:
    Result<Cell, Error>) {
    let lane = assignment.lane;
    let value = match assignment.value {
        Some(word) => Value::known(word),
        None => Value::unknown(),
    };
    let cell = region.inner.assign_advice(
        || format!("load message_{}", lane),
        column.inner,
        assignment.row,
        || value,
    );
    cell.map(|inner| Cell { inner })
}

impl<const WIDTH: usize, const RATE: usize, const L: usize> HashCircuit<
    HashSpec<WIDTH, RATE>,
    WIDTH,
    RATE,
    L,
> {
    /// The word of the message at `lane`, or `None` while the message is
    /// unknown.
    pub fn message_word(&self, lane: usize) -> (r: Option<Fr>)
        requires
            lane < L,
        ensures
            r == word_at(self.message, lane as int),
    {
        match &self.message {
            Some(words) => Some(words[lane]),
            None => None,
        }
    }

    /// The assignments that load the message: one for each word, in order,
    /// all at [`MESSAGE_ROW`]. Fails if the configuration has fewer input
    /// columns than the message has words.
    pub fn message_assignments(&self, config: &HashConfig<WIDTH, RATE, L>) -> (r: Result<
        Vec<Assignment>,
        CircuitError,
    >)
        ensures
            config.input@.len() < L ==> r == Err::<Vec<Assignment>, CircuitError>(
                CircuitError::TooFewInputColumns,
            ),
            config.input@.len() >= L ==> r is Ok && r->Ok_0@ == Seq::new(
                L as nat,
                |lane: int| assignment_at(self.message, lane),
            ),
    {
        if config.input.len() < L {
            return Err(CircuitError::TooFewInputColumns);
        }
        let mut assignments: Vec<Assignment> = Vec::new();
        let mut lane: usize = 0;
        while lane < L
            invariant
                lane <= L,
                assignments@ == Seq::new(lane as nat, |i: int| assignment_at(self.message, i)),
            decreases L - lane,
        {
            let value = self.message_word(lane);
            assignments.push(Assignment { lane, row: MESSAGE_ROW, value });
            lane = lane + 1;
            assert(assignments@ =~= Seq::new(lane as nat, |i: int| assignment_at(self.message, i)));
        }
        Ok(assignments)
    }

    /// Assigns the message to the input columns of `region`, word by word,
    /// and returns the cells. Stops at the first assignment that the region
    /// refuses.
    pub fn load_message(
        &self,
        config: &HashConfig<WIDTH, RATE, L>,
        region: &mut MessageRegion,
    ) -> (r: Result<Vec<Cell>, CircuitError>)
        ensures
            config.input@.len() < L ==> r is Err && r->Err_0 == CircuitError::TooFewInputColumns
                && *final(region) == *old(region),
            config.input@.len() >= L ==> match r {
                Ok(cells) => cells@.len() == L,
                Err(e) => e is Substrate,
            },
    {
        let assignments = match self.message_assignments(config) {
            Ok(assignments) => assignments,
            Err(e) => {
                return Err(e);
            },
        };
        let mut cells: Vec<Cell> = Vec::new();
        let mut lane: usize = 0;
        while lane < L
            invariant
                lane <= L,
                L <= config.input@.len(),
                cells@.len() == lane,
                assignments@.len() == L,
            decreases L - lane,
        {
            match assign_advice(region, &config.input[lane], &assignments[lane]) {
                Ok(cell) => {
                    cells.push(cell);
                },
                Err(e) => {
                    return Err(CircuitError::Substrate(e));
                },
            }
            lane = lane + 1;
        }
        Ok(cells)
    }

    /// One step of synthesis: given what the step before produced, says what
    /// to do next.
    pub fn synthesize<'a>(&self, config: &'a HashConfig<WIDTH, RATE, L>, event: Event) -> (r: Action<
        'a,
    >)
        ensures
            r == next_action(&config.expected, L as nat, event),
    {
        match event {
            Event::Start => Action::LoadMessage,
            Event::MessageLoaded(Ok(cells)) => {
                if cells.len() == L {
                    Action::Hash { message: cells }
                } else {
                    Action::Finish(Err(CircuitError::CellCountMismatch))
                }
            },
            Event::MessageLoaded(Err(e)) => Action::Finish(Err(CircuitError::Substrate(e))),
            Event::Hashed(Ok(digest)) => Action::Bind {
                digest,
                column: &config.expected,
                row: DIGEST_ROW,
            },
            Event::Hashed(Err(e)) => Action::Finish(Err(CircuitError::Substrate(e))),
            Event::Bound(Ok(())) => Action::Finish(Ok(())),
            Event::Bound(Err(e)) => Action::Finish(Err(CircuitError::Substrate(e))),
        }
    }
}

} // verus!
