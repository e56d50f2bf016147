use crate::cell::{Cell, CellState};
use vstd::prelude::*;

verus! {

/// A grid seen as its rows, each a sequence of cells: at least one row, at
/// least one column, every row as long as the first.
pub open spec fn is_grid(g: Seq<Seq<Cell>>) -> bool {
    &&& g.len() > 0
    &&& g[0].len() > 0
    &&& forall|i: int| 0 <= i < g.len() ==> #[trigger] g[i].len() == g[0].len()
}

/// The rows of a matrix of cells as sequences.
pub open spec fn rows_view(rows: Seq<Vec<Cell>>) -> Seq<Seq<Cell>> {
    rows.map_values(|row: Vec<Cell>| row@)
}

/// Whether position `(r, c)` lies in `g` and holds a live cell. Positions
/// outside `g` hold no cell, so they are never alive.
pub open spec fn is_alive(g: Seq<Seq<Cell>>, r: int, c: int) -> bool {
    &&& 0 <= r < g.len()
    &&& 0 <= c < g[r].len()
    &&& g[r][c].state == CellState::Alive
}

/// One for a live cell at `(r, c)`, zero otherwise.
pub open spec fn alive_unit(g: Seq<Seq<Cell>>, r: int, c: int) -> nat {
    if is_alive(g, r, c) {
        1
    } else {
        0
    }
}

/// How many of the eight positions around `(r, c)` hold a live cell; the
/// grid has hard edges and does not wrap around.
pub open spec fn alive_neighbors(g: Seq<Seq<Cell>>, r: int, c: int) -> nat {
    alive_unit(g, r - 1, c - 1) + alive_unit(g, r - 1, c) + alive_unit(g, r - 1, c + 1)
        + alive_unit(g, r, c - 1) + alive_unit(g, r, c + 1) + alive_unit(g, r + 1, c - 1)
        + alive_unit(g, r + 1, c) + alive_unit(g, r + 1, c + 1)
}

/// Conway's rule: a live cell survives with two or three live neighbours, a
/// dead cell comes alive with exactly three, every other cell is dead next.
pub open spec fn next_state(s: CellState, n: nat) -> CellState {
    match s {
        CellState::Alive => if n == 2 || n == 3 {
            CellState::Alive
        } else {
            CellState::Dead
        },
        CellState::Dead => if n == 3 {
            CellState::Alive
        } else {
            CellState::Dead
        },
    }
}

/// The next generation: every cell takes its next state from the current
/// generation alone.
pub open spec fn next_generation(g: Seq<Seq<Cell>>) -> Seq<Seq<Cell>> {
    Seq::new(
        g.len(),
        |r: int|
            Seq::new(
                g[r].len(),
                |c: int| Cell { state: next_state(g[r][c].state, alive_neighbors(g, r, c)) },
            ),
    )
}

/// The grid after `n` generations.
pub open spec fn generations(g: Seq<Seq<Cell>>, n: nat) -> Seq<Seq<Cell>>
    decreases n,
{
    if n == 0 {
        g
    } else {
        next_generation(generations(g, (n - 1) as nat))
    }
}

impl CellState {
    /// The state that follows `self` for a cell with `live_neighbors` live neighbours.
    pub fn next(self, live_neighbors: u32) -> (r: CellState)
        ensures
            r == next_state(self, live_neighbors as nat),
    {
        match (self, live_neighbors) {
            (CellState::Alive, n) if n < 2 => CellState::Dead,
            (CellState::Alive, n) if n > 3 => CellState::Dead,
            (CellState::Dead, 3) => CellState::Alive,
            (unchanged, _) => unchanged,
        }
    }
}

} // verus!
