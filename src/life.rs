use crate::grid::Grid;
use crate::rules::next_generation;
use vstd::prelude::*;

verus! {

/// The current generation of a simulation.
#[derive(Debug)]
pub struct LifeState {
    pub grid: Grid,
}

impl Clone for LifeState {
    fn clone(&self) -> (r: Self)
        ensures
            r.grid@ == self.grid@,
    {
        LifeState { grid: self.grid.clone() }
    }
}

impl LifeState {
    /// Generation zero: an independent copy of `grid`.
    pub fn new(grid: &Grid) -> (r: LifeState)
        ensures
            r.grid@ == grid@,
    {
        LifeState { grid: grid.clone() }
    }

    /// Advances one generation and returns a snapshot of it that shares no
    /// storage with `self`.
    pub fn step(&mut self) -> (r: LifeState)
        ensures
            final(self).grid@ == next_generation(old(self).grid@),
            r.grid@ == final(self).grid@,
    {
        self.grid.update();
        LifeState { grid: self.grid.clone() }
    }
}

} // verus!
