use crate::cell::Cell;
use crate::grid::Grid;
use crate::life::LifeState;
use crate::rules::next_generation;
use vstd::prelude::*;

verus! {

/// Generations per second when a run starts.
pub const BASE_SPEED_TICKS_PER_SECOND: u128 = 5;

/// A key that a running simulation reacts to.
#[derive(Clone, Copy, Debug, PartialEq, Eq, Structural)]
pub enum RunKey {
    /// One more generation per second.
    SpeedUp,
    /// One generation per second less, never below one.
    SpeedDown,
    /// Suspends or resumes stepping.
    Pause,
    /// Starts over from the first generation.
    Reset,
}

/// A running simulation: the first generation, the current one, the pace and
/// whether stepping is suspended.
#[derive(Debug)]
pub struct Runner {
    initial: Grid,
    state: LifeState,
    ticks_per_second: u128,
    paused: bool,
}

impl Runner {
    #[verifier::type_invariant]
    spec fn inv(self) -> bool {
        self.ticks_per_second >= 1
    }

    /// The generation the run started from.
    pub closed spec fn first(&self) -> Seq<Seq<Cell>> {
        self.initial@
    }

    /// The current generation.
    pub closed spec fn current(&self) -> Seq<Seq<Cell>> {
        self.state.grid@
    }

    /// Generations per second.
    pub closed spec fn speed(&self) -> int {
        self.ticks_per_second as int
    }

    /// Whether stepping is suspended.
    pub closed spec fn suspended(&self) -> bool {
        self.paused
    }

    /// A run that starts from `grid`, at the base speed, not paused.
    pub fn new(grid: &Grid) -> (r: Runner)
        ensures
            r.first() == grid@,
            r.current() == grid@,
            r.speed() == BASE_SPEED_TICKS_PER_SECOND,
            !r.suspended(),
    {
        Runner {
            initial: grid.clone(),
            state: LifeState::new(grid),
            ticks_per_second: BASE_SPEED_TICKS_PER_SECOND,
            paused: false,
        }
    }

    /// The current generation.
    pub fn state(&self) -> (r: &LifeState)
        ensures
            r.grid@ == self.current(),
    {
        &self.state
    }

    /// Generations per second.
    pub fn ticks_per_second(&self) -> (r: u128)
        ensures
            r == self.speed(),
            r >= 1,
    {
        proof {
            use_type_invariant(self);
        }
        self.ticks_per_second
    }

    /// Whether stepping is suspended.
    pub fn is_paused(&self) -> (r: bool)
        ensures
            r == self.suspended(),
    {
        self.paused
    }

    /// Reacts to `key`, and says whether the clock that paces the steps must
    /// start over, which it must after a reset.
    pub fn press(&mut self, key: RunKey) -> (restart_clock: bool)
        ensures
            restart_clock == (key == RunKey::Reset),
            final(self).first() == old(self).first(),
            key == RunKey::SpeedUp ==> final(self).speed() == if old(self).speed() < u128::MAX {
                old(self).speed() + 1
            } else {
                old(self).speed()
            },
            key == RunKey::SpeedDown ==> final(self).speed() == if old(self).speed() > 1 {
                old(self).speed() - 1
            } else {
                1
            },
            key != RunKey::SpeedUp && key != RunKey::SpeedDown ==> final(self).speed() == old(
                self,
            ).speed(),
            key == RunKey::Pause ==> final(self).suspended() == !old(self).suspended(),
            key != RunKey::Pause ==> final(self).suspended() == old(self).suspended(),
            key == RunKey::Reset ==> final(self).current() == old(self).first(),
            key != RunKey::Reset ==> final(self).current() == old(self).current(),
    {
        proof {
            use_type_invariant(&*self);
        }
        match key {
            RunKey::SpeedUp => {
                if self.ticks_per_second < u128::MAX {
                    self.ticks_per_second = self.ticks_per_second + 1;
                }
                false
            },
            RunKey::SpeedDown => {
                if self.ticks_per_second > 1 {
                    self.ticks_per_second = self.ticks_per_second - 1;
                }
                false
            },
            RunKey::Pause => {
                self.paused = !self.paused;
                false
            },
            RunKey::Reset => {
                self.state = LifeState::new(&self.initial);
                true
            },
        }
    }

    /// Advances one generation if the run is not paused and more than a
    /// period (`1000 / speed` milliseconds, rounded down) has gone by since
    /// the clock last started; says whether it did, in which case the clock
    /// must start over.
    pub fn tick(&mut self, elapsed_millis: u128) -> (stepped: bool)
        ensures
            stepped == (!old(self).suspended() && elapsed_millis > 1000int / old(self).speed()),
            stepped ==> final(self).current() == next_generation(old(self).current()),
            !stepped ==> final(self).current() == old(self).current(),
            final(self).first() == old(self).first(),
            final(self).speed() == old(self).speed(),
            final(self).suspended() == old(self).suspended(),
    {
        proof {
            use_type_invariant(&*self);
        }
        if !self.paused && elapsed_millis > 1000 / self.ticks_per_second {
            let mut state = self.state.clone();
            self.state = state.step();
            true
        } else {
            false
        }
    }
}

} // verus!
