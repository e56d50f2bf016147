use crate::cell::{Cell, CellState};
use crate::grid::{copy_rows, has_shape, random_cells};
use crate::rules::{alive_neighbors, alive_unit, next_generation, rows_view};
use vstd::prelude::*;

verus! {

/// Rows and columns of the square grid that `LifeState::new_with_random_seed` draws.
pub const RANDOM_SIDE: usize = 100;

/// Whether `g` has at least one row and every row is as long as the first.
pub open spec fn is_rectangular(g: Seq<Seq<Cell>>) -> bool {
    &&& g.len() > 0
    &&& forall|i: int| 0 <= i < g.len() ==> #[trigger] g[i].len() == g[0].len()
}

/// What the position at offset `(i - 1, j - 1)` from `(x, y)` adds to the
/// neighbour count of `(x, y)`; the centre adds nothing.
pub open spec fn offset_unit(g: Seq<Seq<Cell>>, x: int, y: int, i: int, j: int) -> nat {
    if i == 1 && j == 1 {
        0
    } else {
        alive_unit(g, x + i - 1, y + j - 1)
    }
}

/// The offsets `(i, 0)` to `(i, j - 1)` summed.
pub open spec fn offset_row_sum(g: Seq<Seq<Cell>>, x: int, y: int, i: int, j: nat) -> nat
    decreases j,
{
    if j == 0 {
        0
    } else {
        offset_row_sum(g, x, y, i, (j - 1) as nat) + offset_unit(g, x, y, i, j - 1)
    }
}

/// The full rows of offsets `0` to `i - 1` summed.
pub open spec fn offset_block_sum(g: Seq<Seq<Cell>>, x: int, y: int, i: nat) -> nat
    decreases i,
{
    if i == 0 {
        0
    } else {
        offset_block_sum(g, x, y, (i - 1) as nat) + offset_row_sum(g, x, y, i - 1, 3)
    }
}

proof fn lemma_offset_row_sum_bound(g: Seq<Seq<Cell>>, x: int, y: int, i: int, j: nat)
    ensures
        offset_row_sum(g, x, y, i, j) <= j,
    decreases j,
{
    if j > 0 {
        lemma_offset_row_sum_bound(g, x, y, i, (j - 1) as nat);
    }
}

proof fn lemma_offset_block_sum_is_count(g: Seq<Seq<Cell>>, x: int, y: int)
    ensures
        offset_block_sum(g, x, y, 3) == alive_neighbors(g, x, y),
{
    reveal_with_fuel(offset_block_sum, 4);
    reveal_with_fuel(offset_row_sum, 4);
}

/// A simulation state that holds its cells directly, as rows.
#[derive(Debug)]
pub struct LifeState {
    pub grid: Vec<Vec<Cell>>,
}

impl Clone for LifeState {
    fn clone(&self) -> (r: Self)
        ensures
            rows_view(r.grid@) == rows_view(self.grid@),
    {
        LifeState { grid: copy_rows(self.grid.as_slice()) }
    }
}

impl LifeState {
    /// A state holding `seed` as it is.
    pub fn new(seed: Vec<Vec<Cell>>) -> (r: LifeState)
        ensures
            r.grid@ == seed@,
    {
        LifeState { grid: seed }
    }

    /// A state of `RANDOM_SIDE` rows of `RANDOM_SIDE` cells whose states are
    /// drawn at random.
    pub fn new_with_random_seed() -> (r: LifeState)
        ensures
            has_shape(rows_view(r.grid@), RANDOM_SIDE as nat, RANDOM_SIDE as nat),
    {
        LifeState { grid: random_cells(RANDOM_SIDE, RANDOM_SIDE) }
    }

    /// The next generation, computed from `self` alone into new storage.
    pub fn step(&self) -> (r: LifeState)
        requires
            is_rectangular(rows_view(self.grid@)),
        ensures
            rows_view(r.grid@) == next_generation(rows_view(self.grid@)),
    {
        let ghost g = rows_view(self.grid@);
        let w = self.grid.len();
        let h = self.grid[0].len();
        let mut new_grid: Vec<Vec<Cell>> = Vec::new();
        let mut x: usize = 0;
        while x < w
            invariant
                g == rows_view(self.grid@),
                is_rectangular(g),
                w == g.len(),
                h == g[0].len(),
                x <= w,
                new_grid@.len() == x,
                forall|k: int| 0 <= k < x ==> #[trigger] new_grid@[k]@ == next_generation(g)[k],
            decreases w - x,
        {
            let mut new_row: Vec<Cell> = Vec::new();
            let mut y: usize = 0;
            while y < h
                invariant
                    g == rows_view(self.grid@),
                    is_rectangular(g),
                    w == g.len(),
                    h == g[0].len(),
                    x < w,
                    y <= h,
                    new_row@ == next_generation(g)[x as int].take(y as int),
                decreases h - y,
            {
                let mut neighbors_count: u32 = 0;
                let mut i: usize = 0;
                while i < 3
                    invariant
                        g == rows_view(self.grid@),
                        is_rectangular(g),
                        w == g.len(),
                        h == g[0].len(),
                        x < w,
                        y < h,
                        i <= 3,
                        neighbors_count == offset_block_sum(g, x as int, y as int, i as nat),
                        neighbors_count <= 3 * i,
                    decreases 3 - i,
                {
                    let mut j: usize = 0;
                    while j < 3
                        invariant
                            g == rows_view(self.grid@),
                            is_rectangular(g),
                            w == g.len(),
                            h == g[0].len(),
                            x < w,
                            y < h,
                            i < 3,
                            j <= 3,
                            neighbors_count == offset_block_sum(g, x as int, y as int, i as nat)
                                + offset_row_sum(g, x as int, y as int, i as int, j as nat),
                            neighbors_count <= 3 * i + j,
                        decreases 3 - j,
                    {
                        // Positions beyond an edge, and the cell itself, are skipped.
                        let row_in = (i >= 1 || x >= 1) && (i <= 1 || x + 1 < w);
                        let col_in = (j >= 1 || y >= 1) && (j <= 1 || y + 1 < h);
                        if row_in && col_in && !(i == 1 && j == 1) {
                            proof {
                                assert(g[x + i - 1] == self.grid@[x + i - 1]@);
                            }
                            if self.grid[x + i - 1][y + j - 1].state == CellState::Alive {
                                neighbors_count += 1;
                            }
                        }
                        j += 1;
                    }
                    proof {
                        lemma_offset_row_sum_bound(g, x as int, y as int, i as int, 3);
                    }
                    i += 1;
                }
                proof {
                    lemma_offset_block_sum_is_count(g, x as int, y as int);
                    assert(g[x as int] == self.grid@[x as int]@);
                }
                let state = self.grid[x][y].state;
                new_row.push(Cell { state: state.next(neighbors_count) });
                y += 1;
                proof {
                    assert(new_row@ =~= next_generation(g)[x as int].take(y as int));
                }
            }
            proof {
                assert(new_row@ =~= next_generation(g)[x as int]);
            }
            new_grid.push(new_row);
            x += 1;
        }
        proof {
            assert(rows_view(new_grid@) =~= next_generation(g));
        }
        LifeState { grid: new_grid }
    }
}

} // verus!
