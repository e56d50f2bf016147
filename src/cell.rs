use rand::seq::IteratorRandom;
use vstd::prelude::*;

verus! {

/// The two states a cell of the automaton can be in.
#[derive(Clone, Copy, Debug, PartialEq, Eq, Structural)]
pub enum CellState {
    Dead,
    Alive,
}

/// Relies on rand's `IteratorRandom::choose` over the range `0..n`, drawn from
/// `rand::thread_rng()`: on a non-empty range it returns `Some` of one of its indices.
#[verifier::external_body]
pub(crate) fn random_index(n: usize) -> (r: usize)
    requires
        n > 0,
    ensures
        r < n,
{
    (0..n).choose(&mut rand::thread_rng()).unwrap()
}

impl CellState {
    /// Every state, each once: `Dead`, then `Alive`.
    pub fn iter() -> (r: Vec<CellState>)
        ensures
            r@ == seq![CellState::Dead, CellState::Alive],
    {
        vec![CellState::Dead, CellState::Alive]
    }

    /// The other state.
    pub open spec fn flipped(self) -> CellState {
        match self {
            CellState::Dead => CellState::Alive,
            CellState::Alive => CellState::Dead,
        }
    }
}

/// The state at index `i` of `CellState::iter()`: `Dead` for 0, `Alive` for 1.
pub open spec fn drawn_state(i: int) -> CellState {
    if i == 0 {
        CellState::Dead
    } else {
        CellState::Alive
    }
}

/// One cell of a grid; it has no identity beyond its state.
#[derive(Clone, Copy, Debug, PartialEq, Eq, Structural)]
pub struct Cell {
    pub state: CellState,
}

impl Cell {
    pub fn new(state: CellState) -> (c: Cell)
        ensures
            c.state == state,
    {
        Cell { state }
    }

    /// The cell whose state stands at index `i` of `CellState::iter()`.
    pub fn from_draw(i: usize) -> (c: Cell)
        requires
            i < 2,
        ensures
            c.state == drawn_state(i as int),
    {
        let states = CellState::iter();
        Cell { state: states[i] }
    }

    /// A cell whose state is drawn at random, each state being equally likely:
    /// an index of `CellState::iter()` is drawn and handed to `from_draw`.
    pub fn new_with_random_state() -> Cell {
        Cell::from_draw(random_index(2))
    }

    /// Flips the state between `Dead` and `Alive`.
    pub fn toggle(&mut self)
        ensures
            final(self).state == old(self).state.flipped(),
    {
        self.state = if self.state == CellState::Alive {
            CellState::Dead
        } else {
            CellState::Alive
        };
    }

    /// Sets the state to `Dead`.
    pub fn kill(&mut self)
        ensures
            final(self).state == CellState::Dead,
    {
        self.state = CellState::Dead;
    }

    /// Sets the state to `Alive`.
    pub fn resurrect(&mut self)
        ensures
            final(self).state == CellState::Alive,
    {
        self.state = CellState::Alive;
    }
}

} // verus!
