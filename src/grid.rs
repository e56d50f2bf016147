use crate::cell::{drawn_state, random_index, Cell, CellState};
use crate::rules::{alive_neighbors, is_grid, next_generation, rows_view};
use vstd::prelude::*;

verus! {

/// Why a grid could not be built or a position could not be reached.
#[derive(Clone, Copy, Debug, PartialEq, Eq, Structural)]
pub enum GridError {
    /// The rows of a seed are not all of one length.
    DimensionMismatch,
    /// A position lies outside the grid.
    OutOfRange,
    /// No rows, or no columns.
    EmptyGrid,
}

/// What is wrong with the shape of a matrix of cells, if anything: no rows,
/// rows of different lengths, or else rows without cells.
pub open spec fn shape_error(g: Seq<Seq<Cell>>) -> Option<GridError> {
    if g.len() == 0 {
        Some(GridError::EmptyGrid)
    } else if exists|i: int| 0 <= i < g.len() && #[trigger] g[i].len() != g[0].len() {
        Some(GridError::DimensionMismatch)
    } else if g[0].len() == 0 {
        Some(GridError::EmptyGrid)
    } else {
        None
    }
}

/// A matrix of `rows` rows of `cols` cells, all in `state`.
pub open spec fn filled(rows: nat, cols: nat, state: CellState) -> Seq<Seq<Cell>> {
    Seq::new(rows, |r: int| Seq::new(cols, |c: int| Cell { state }))
}

/// Whether `g` has `rows` rows of `cols` cells each.
pub open spec fn has_shape(g: Seq<Seq<Cell>>, rows: nat, cols: nat) -> bool {
    &&& g.len() == rows
    &&& forall|r: int| 0 <= r < rows ==> #[trigger] g[r].len() == cols
}

/// `g` with the cell at `(r, c)` flipped between `Dead` and `Alive`.
pub open spec fn toggled(g: Seq<Seq<Cell>>, r: int, c: int) -> Seq<Seq<Cell>> {
    g.update(r, g[r].update(c, Cell { state: g[r][c].state.flipped() }))
}

/// The cell at `(r, c)`, if `g` has one there.
pub open spec fn cell_at(g: Seq<Seq<Cell>>, r: int, c: int) -> Option<Cell> {
    if 0 <= r < g.len() && 0 <= c < g[r].len() {
        Some(g[r][c])
    } else {
        None
    }
}

/// One for a live cell, zero for a dead cell or none.
fn live_units(cell: Option<Cell>) -> (r: u32)
    ensures
        r == (if cell matches Some(c) && c.state == CellState::Alive {
            1u32
        } else {
            0u32
        }),
{
    match cell {
        Some(c) => if c.state == CellState::Alive {
            1
        } else {
            0
        },
        None => 0,
    }
}

/// A copy of one row.
fn copy_row(row: &Vec<Cell>) -> (r: Vec<Cell>)
    ensures
        r@ == row@,
{
    let mut out: Vec<Cell> = Vec::new();
    let mut j: usize = 0;
    while j < row.len()
        invariant
            j <= row.len(),
            out@ == row@.take(j as int),
        decreases row.len() - j,
    {
        out.push(row[j]);
        j += 1;
        proof {
            assert(out@ =~= row@.take(j as int));
        }
    }
    proof {
        assert(out@ =~= row@);
    }
    out
}

/// A copy of every row.
pub(crate) fn copy_rows(rows: &[Vec<Cell>]) -> (r: Vec<Vec<Cell>>)
    ensures
        rows_view(r@) == rows_view(rows@),
{
    let mut out: Vec<Vec<Cell>> = Vec::new();
    let mut i: usize = 0;
    while i < rows.len()
        invariant
            i <= rows.len(),
            out@.len() == i,
            forall|k: int| 0 <= k < i ==> #[trigger] out@[k]@ == rows@[k]@,
        decreases rows.len() - i,
    {
        let row = copy_row(&rows[i]);
        out.push(row);
        i += 1;
    }
    proof {
        assert(rows_view(out@) =~= rows_view(rows@));
    }
    out
}

/// A rectangular, fixed-size grid of cells addressed by `(row, column)`.
#[derive(Debug)]
pub struct Grid {
    cells: Vec<Vec<Cell>>,
}

impl View for Grid {
    type V = Seq<Seq<Cell>>;

    closed spec fn view(&self) -> Seq<Seq<Cell>> {
        rows_view(self.cells@)
    }
}

impl Clone for Grid {
    fn clone(&self) -> (r: Self)
        ensures
            r@ == self@,
    {
        proof {
            use_type_invariant(self);
        }
        Grid { cells: copy_rows(self.cells.as_slice()) }
    }
}

impl Grid {
    #[verifier::type_invariant]
    pub(crate) open spec fn inv(self) -> bool {
        is_grid(self@)
    }

    /// Whether `(row, col)` lies in the grid.
    pub open spec fn in_range(&self, row: int, col: int) -> bool {
        0 <= row < self@.len() && 0 <= col < self@[0].len()
    }

    /// A grid holding a copy of `seed`, whose rows must all be of one,
    /// non-zero length. A seed without rows, or whose rows are all empty, is
    /// refused as empty; one whose rows differ in length, as mismatched.
    pub fn new(seed: &[Vec<Cell>]) -> (r: Result<Grid, GridError>)
        ensures
            match shape_error(rows_view(seed@)) {
                None => r is Ok && r->Ok_0@ == rows_view(seed@),
                Some(e) => r == Err::<Grid, GridError>(e),
            },
    {
        let ghost g = rows_view(seed@);
        if seed.len() == 0 {
            return Err(GridError::EmptyGrid);
        }
        let width = seed[0].len();
        let mut i: usize = 0;
        while i < seed.len()
            invariant
                i <= seed.len(),
                g == rows_view(seed@),
                g.len() == seed@.len(),
                width == g[0].len(),
                forall|k: int| 0 <= k < i ==> #[trigger] g[k].len() == width,
            decreases seed.len() - i,
        {
            proof {
                assert(g[i as int] == seed@[i as int]@);
            }
            if seed[i].len() != width {
                return Err(GridError::DimensionMismatch);
            }
            i += 1;
        }
        if width == 0 {
            return Err(GridError::EmptyGrid);
        }
        let cells = copy_rows(seed);
        Ok(Grid { cells })
    }

    /// A grid of `width` rows of `height` dead cells.
    pub fn new_blank(width: usize, height: usize) -> (r: Result<Grid, GridError>)
        ensures
            width == 0 || height == 0 ==> r == Err::<Grid, GridError>(GridError::EmptyGrid),
            width > 0 && height > 0 ==> r is Ok && r->Ok_0@ == filled(
                width as nat,
                height as nat,
                CellState::Dead,
            ),
    {
        if width == 0 || height == 0 {
            return Err(GridError::EmptyGrid);
        }
        let ghost target = filled(width as nat, height as nat, CellState::Dead);
        let mut cells: Vec<Vec<Cell>> = Vec::new();
        let mut i: usize = 0;
        while i < width
            invariant
                i <= width,
                cells@.len() == i,
                forall|k: int| 0 <= k < i ==> #[trigger] cells@[k]@ == target[k],
                target == filled(width as nat, height as nat, CellState::Dead),
            decreases width - i,
        {
            let mut row: Vec<Cell> = Vec::new();
            let mut j: usize = 0;
            while j < height
                invariant
                    j <= height,
                    row@ == Seq::new(j as nat, |c: int| Cell { state: CellState::Dead }),
                decreases height - j,
            {
                row.push(Cell::new(CellState::Dead));
                j += 1;
                proof {
                    assert(row@ =~= Seq::new(j as nat, |c: int| Cell { state: CellState::Dead }));
                }
            }
            proof {
                assert(row@ =~= target[i as int]);
            }
            cells.push(row);
            i += 1;
        }
        proof {
            assert(rows_view(cells@) =~= target);
        }
        Ok(Grid { cells })
    }

    /// The number of rows.
    pub fn rows_size(&self) -> (r: usize)
        ensures
            r == self@.len(),
            r > 0,
    {
        proof {
            use_type_invariant(self);
        }
        self.cells.len()
    }

    /// The number of columns, the length of every row.
    pub fn cols_size(&self) -> (r: usize)
        ensures
            r == self@[0].len(),
            r > 0,
            forall|i: int| 0 <= i < self@.len() ==> #[trigger] self@[i].len() == r,
    {
        proof {
            use_type_invariant(self);
        }
        self.cells[0].len()
    }

    /// The cell at `(row, col)`, if the grid has one there.
    fn at(&self, row: usize, col: usize) -> (r: Option<Cell>)
        ensures
            r == cell_at(self@, row as int, col as int),
    {
        if row < self.cells.len() && col < self.cells[row].len() {
            Some(self.cells[row][col])
        } else {
            None
        }
    }

    fn upper_left(&self, row: usize, col: usize) -> (r: Option<Cell>)
        ensures
            r == cell_at(self@, row - 1, col - 1),
    {
        if row == 0 || col == 0 {
            return None;
        }
        self.at(row - 1, col - 1)
    }

    fn upper(&self, row: usize, col: usize) -> (r: Option<Cell>)
        ensures
            r == cell_at(self@, row - 1, col as int),
    {
        if row == 0 {
            return None;
        }
        self.at(row - 1, col)
    }

    fn upper_right(&self, row: usize, col: usize) -> (r: Option<Cell>)
        ensures
            r == cell_at(self@, row - 1, col + 1),
    {
        if row == 0 || col >= self.cols_size() {
            return None;
        }
        self.at(row - 1, col + 1)
    }

    fn left(&self, row: usize, col: usize) -> (r: Option<Cell>)
        ensures
            r == cell_at(self@, row as int, col - 1),
    {
        if col == 0 {
            return None;
        }
        self.at(row, col - 1)
    }

    fn right(&self, row: usize, col: usize) -> (r: Option<Cell>)
        ensures
            r == cell_at(self@, row as int, col + 1),
    {
        if col >= self.cols_size() {
            return None;
        }
        self.at(row, col + 1)
    }

    fn lower_left(&self, row: usize, col: usize) -> (r: Option<Cell>)
        ensures
            r == cell_at(self@, row + 1, col - 1),
    {
        if row >= self.rows_size() || col == 0 {
            return None;
        }
        self.at(row + 1, col - 1)
    }

    fn lower(&self, row: usize, col: usize) -> (r: Option<Cell>)
        ensures
            r == cell_at(self@, row + 1, col as int),
    {
        if row >= self.rows_size() {
            return None;
        }
        self.at(row + 1, col)
    }

    fn lower_right(&self, row: usize, col: usize) -> (r: Option<Cell>)
        ensures
            r == cell_at(self@, row + 1, col + 1),
    {
        if row >= self.rows_size() || col >= self.cols_size() {
            return None;
        }
        self.at(row + 1, col + 1)
    }

    /// How many of the eight positions around `(row, col)` hold a live cell.
    /// Positions beyond an edge hold no cell and count for nothing.
    pub fn count_neighbors(&self, row: usize, col: usize) -> (r: u32)
        ensures
            r == alive_neighbors(self@, row as int, col as int),
            r <= 8,
    {
        let mut neighbors_count: u32 = 0;
        neighbors_count += live_units(self.upper_left(row, col));
        neighbors_count += live_units(self.upper(row, col));
        neighbors_count += live_units(self.upper_right(row, col));
        neighbors_count += live_units(self.left(row, col));
        neighbors_count += live_units(self.right(row, col));
        neighbors_count += live_units(self.lower_left(row, col));
        neighbors_count += live_units(self.lower(row, col));
        neighbors_count += live_units(self.lower_right(row, col));
        neighbors_count
    }

    /// The cell at `(row, col)`; a position outside the grid is refused.
    pub fn get(&self, row: usize, col: usize) -> (r: Result<Cell, GridError>)
        ensures
            self.in_range(row as int, col as int) ==> r == Ok::<Cell, GridError>(
                self@[row as int][col as int],
            ),
            !self.in_range(row as int, col as int) ==> r == Err::<Cell, GridError>(
                GridError::OutOfRange,
            ),
    {
        if row < self.rows_size() && col < self.cols_size() {
            proof {
                assert(self@[row as int] == self.cells@[row as int]@);
            }
            Ok(self.cells[row][col])
        } else {
            Err(GridError::OutOfRange)
        }
    }

    /// Flips the cell at `(row, col)` between `Dead` and `Alive`. A position
    /// outside the grid is refused and the grid is left as it was.
    pub fn toggle(&mut self, row: usize, col: usize) -> (r: Result<(), GridError>)
        ensures
            old(self).in_range(row as int, col as int) ==> {
                &&& r is Ok
                &&& final(self)@ == toggled(old(self)@, row as int, col as int)
            },
            !old(self).in_range(row as int, col as int) ==> {
                &&& r == Err::<(), GridError>(GridError::OutOfRange)
                &&& final(self)@ == old(self)@
            },
    {
        if row >= self.rows_size() || col >= self.cols_size() {
            return Err(GridError::OutOfRange);
        }
        proof {
            use_type_invariant(&*self);
        }
        let ghost before = self@;
        proof {
            assert(before[row as int] == self.cells@[row as int]@);
        }
        let mut cell = self.cells[row][col];
        cell.toggle();
        // A copy is changed and then put in place: a borrow of `self.cells`
        // that may unwind would leave the grid's invariant unchecked.
        let mut cells = copy_rows(self.cells.as_slice());
        proof {
            assert(rows_view(cells@)[row as int] == cells@[row as int]@);
        }
        cells[row][col] = cell;
        proof {
            assert(rows_view(cells@) =~= before.update(
                row as int,
                before[row as int].update(col as int, cell),
            ));
            assert(is_grid(rows_view(cells@)));
        }
        self.cells = cells;
        Ok(())
    }

    /// Replaces every cell by one whose state is drawn at random; the
    /// dimensions stay as they were.
    pub fn randomize(&mut self)
        ensures
            has_shape(final(self)@, old(self)@.len(), old(self)@[0].len()),
    {
        proof {
            use_type_invariant(&*self);
        }
        let cells = random_cells(self.rows_size(), self.cols_size());
        proof {
            assert(rows_view(cells@)[0].len() == old(self)@[0].len());
        }
        self.cells = cells;
    }

    /// A grid of `width` rows of `height` cells whose states are drawn at random.
    pub fn new_with_random_seed(width: usize, height: usize) -> (r: Result<Grid, GridError>)
        ensures
            width == 0 || height == 0 ==> r == Err::<Grid, GridError>(GridError::EmptyGrid),
            width > 0 && height > 0 ==> r is Ok && has_shape(
                r->Ok_0@,
                width as nat,
                height as nat,
            ),
    {
        if width == 0 || height == 0 {
            return Err(GridError::EmptyGrid);
        }
        let cells = random_cells(width, height);
        proof {
            assert(rows_view(cells@)[0].len() == height);
        }
        Ok(Grid { cells })
    }

    /// Advances the grid by one generation. Every next state is computed from
    /// the current generation into a separate buffer, which then replaces the
    /// cells all at once.
    pub fn update(&mut self)
        ensures
            final(self)@ == next_generation(old(self)@),
    {
        proof {
            use_type_invariant(&*self);
        }
        let ghost current = self@;
        let rows = self.rows_size();
        let cols = self.cols_size();
        let mut next: Vec<Vec<Cell>> = Vec::new();
        let mut row: usize = 0;
        while row < rows
            invariant
                self@ == current,
                is_grid(current),
                rows == current.len(),
                cols == current[0].len(),
                row <= rows,
                next@.len() == row,
                forall|k: int| 0 <= k < row ==> #[trigger] next@[k]@ == next_generation(current)[k],
            decreases rows - row,
        {
            let mut new_row: Vec<Cell> = Vec::new();
            let mut col: usize = 0;
            while col < cols
                invariant
                    self@ == current,
                    is_grid(current),
                    rows == current.len(),
                    cols == current[0].len(),
                    row < rows,
                    col <= cols,
                    new_row@ == next_generation(current)[row as int].take(col as int),
                decreases cols - col,
            {
                proof {
                    assert(current[row as int] == self.cells@[row as int]@);
                }
                let state = self.cells[row][col].state;
                let live = self.count_neighbors(row, col);
                new_row.push(Cell { state: state.next(live) });
                col += 1;
                proof {
                    assert(new_row@ =~= next_generation(current)[row as int].take(col as int));
                }
            }
            proof {
                assert(new_row@ =~= next_generation(current)[row as int]);
            }
            next.push(new_row);
            row += 1;
        }
        proof {
            assert(rows_view(next@) =~= next_generation(current));
        }
        self.cells = next;
    }
}

/// `rows` rows of `cols` cells each, every state drawn at random: one index
/// of `CellState::iter()` per cell, in row-major order.
pub(crate) fn random_cells(rows: usize, cols: usize) -> (r: Vec<Vec<Cell>>)
    ensures
        has_shape(rows_view(r@), rows as nat, cols as nat),
{
    let mut draws: Vec<usize> = Vec::new();
    let mut i: usize = 0;
    while i < rows
        invariant
            i <= rows,
            draws@.len() == i * cols,
            forall|k: int| 0 <= k < draws@.len() ==> #[trigger] draws@[k] < 2,
        decreases rows - i,
    {
        let mut j: usize = 0;
        while j < cols
            invariant
                i < rows,
                j <= cols,
                draws@.len() == i * cols + j,
                forall|k: int| 0 <= k < draws@.len() ==> #[trigger] draws@[k] < 2,
            decreases cols - j,
        {
            draws.push(random_index(2));
            j += 1;
        }
        proof {
            assert(i * cols + cols == (i + 1) * cols) by (nonlinear_arith);
        }
        i += 1;
    }
    cells_from_draws(rows, cols, &draws)
}

/// The grid of `rows` rows of `cols` cells whose states are given in
/// row-major order by `draws`, as indices of `CellState::iter()`.
pub open spec fn grid_of_draws(rows: nat, cols: nat, draws: Seq<usize>) -> Seq<Seq<Cell>> {
    Seq::new(rows, |i: int| Seq::new(cols, |j: int| Cell { state: drawn_state(draws[i * cols + j] as int) }))
}

/// Lays out `draws`, indices of `CellState::iter()`, in row-major order as
/// `rows` rows of `cols` cells.
pub fn cells_from_draws(rows: usize, cols: usize, draws: &Vec<usize>) -> (r: Vec<Vec<Cell>>)
    requires
        draws@.len() == rows * cols,
        forall|k: int| 0 <= k < draws@.len() ==> #[trigger] draws@[k] < 2,
    ensures
        has_shape(rows_view(r@), rows as nat, cols as nat),
        rows_view(r@) == grid_of_draws(rows as nat, cols as nat, draws@),
        forall|i: int, j: int|
            0 <= i < rows && 0 <= j < cols ==> #[trigger] rows_view(r@)[i][j].state == drawn_state(
                draws@[i * cols + j] as int,
            ),
{
    let ghost target = grid_of_draws(rows as nat, cols as nat, draws@);
    let mut cells: Vec<Vec<Cell>> = Vec::new();
    let mut i: usize = 0;
    let mut k: usize = 0;
    let n = draws.len();
    while i < rows
        invariant
            i <= rows,
            k == i * cols,
            n == draws@.len(),
            draws@.len() == rows * cols,
            forall|t: int| 0 <= t < draws@.len() ==> #[trigger] draws@[t] < 2,
            target == grid_of_draws(rows as nat, cols as nat, draws@),
            cells@.len() == i,
            forall|t: int| 0 <= t < i ==> #[trigger] cells@[t]@ == target[t],
        decreases rows - i,
    {
        let mut row: Vec<Cell> = Vec::new();
        let mut j: usize = 0;
        while j < cols
            invariant
                i < rows,
                j <= cols,
                k == i * cols + j,
                n == draws@.len(),
                draws@.len() == rows * cols,
                forall|t: int| 0 <= t < draws@.len() ==> #[trigger] draws@[t] < 2,
                target == grid_of_draws(rows as nat, cols as nat, draws@),
                row@ == target[i as int].take(j as int),
            decreases cols - j,
        {
            proof {
                assert(i * cols + j < rows * cols) by (nonlinear_arith)
                    requires
                        i < rows,
                        j < cols,
                ;
            }
            row.push(Cell::from_draw(draws[k]));
            k += 1;
            j += 1;
            proof {
                assert(row@ =~= target[i as int].take(j as int));
            }
        }
        proof {
            assert(row@ =~= target[i as int]);
            assert(i * cols + cols == (i + 1) * cols) by (nonlinear_arith);
        }
        cells.push(row);
        i += 1;
    }
    proof {
        assert(rows_view(cells@) =~= target);
    }
    cells
}

} // verus!
