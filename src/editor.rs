use crate::cell::Cell;
use crate::grid::{has_shape, toggled, Grid};
use vstd::prelude::*;

verus! {

/// A key that the editor of the first generation reacts to.
#[derive(Clone, Copy, Debug, PartialEq, Eq, Structural)]
pub enum EditKey {
    Left,
    Right,
    Up,
    Down,
    /// Flips the cell under the cursor.
    Toggle,
    /// Draws every cell anew at random.
    Randomize,
    /// Ends editing.
    Confirm,
}

/// Editing of the first generation: a grid and a cursor that always lies on
/// one of its cells.
#[derive(Debug)]
pub struct Editor {
    grid: Grid,
    row: usize,
    col: usize,
}

impl Editor {
    #[verifier::type_invariant]
    spec fn inv(self) -> bool {
        &&& self.row < self.grid@.len()
        &&& self.col < self.grid@[0].len()
    }

    /// The cells being edited.
    pub closed spec fn cells(&self) -> Seq<Seq<Cell>> {
        self.grid@
    }

    /// The row of the cursor.
    pub closed spec fn cursor_row(&self) -> int {
        self.row as int
    }

    /// The column of the cursor.
    pub closed spec fn cursor_col(&self) -> int {
        self.col as int
    }

    /// Starts editing `grid` with the cursor on its top-left cell.
    pub fn new(grid: Grid) -> (r: Editor)
        ensures
            r.cells() == grid@,
            r.cursor_row() == 0,
            r.cursor_col() == 0,
    {
        proof {
            use_type_invariant(&grid);
        }
        Editor { grid, row: 0, col: 0 }
    }

    /// The grid being edited.
    pub fn grid(&self) -> (r: &Grid)
        ensures
            r@ == self.cells(),
    {
        &self.grid
    }

    /// The cursor, as `(row, column)`.
    pub fn cursor(&self) -> (r: (usize, usize))
        ensures
            r.0 == self.cursor_row(),
            r.1 == self.cursor_col(),
            r.0 < self.cells().len(),
            r.1 < self.cells()[0].len(),
    {
        proof {
            use_type_invariant(self);
        }
        (self.row, self.col)
    }

    /// The edited grid, once editing is over.
    pub fn into_grid(self) -> (r: Grid)
        ensures
            r@ == self.cells(),
    {
        self.grid
    }

    /// Reacts to `key` and says whether editing is over. The cursor moves one
    /// cell at a time and stops at the edges of the grid; only `Toggle` and
    /// `Randomize` change cells, and only `Confirm` ends editing.
    pub fn press(&mut self, key: EditKey) -> (confirmed: bool)
        ensures
            confirmed == (key == EditKey::Confirm),
            key != EditKey::Toggle && key != EditKey::Randomize ==> final(self).cells() == old(
                self,
            ).cells(),
            key != EditKey::Left && key != EditKey::Right ==> final(self).cursor_col() == old(
                self,
            ).cursor_col(),
            key != EditKey::Up && key != EditKey::Down ==> final(self).cursor_row() == old(
                self,
            ).cursor_row(),
            key == EditKey::Left ==> final(self).cursor_col() == if old(self).cursor_col() > 0 {
                old(self).cursor_col() - 1
            } else {
                0
            },
            key == EditKey::Right ==> final(self).cursor_col() == if old(self).cursor_col() + 1
                < old(self).cells()[0].len() {
                old(self).cursor_col() + 1
            } else {
                old(self).cursor_col()
            },
            key == EditKey::Up ==> final(self).cursor_row() == if old(self).cursor_row() > 0 {
                old(self).cursor_row() - 1
            } else {
                0
            },
            key == EditKey::Down ==> final(self).cursor_row() == if old(self).cursor_row() + 1
                < old(self).cells().len() {
                old(self).cursor_row() + 1
            } else {
                old(self).cursor_row()
            },
            key == EditKey::Toggle ==> final(self).cells() == toggled(
                old(self).cells(),
                old(self).cursor_row(),
                old(self).cursor_col(),
            ),
            key == EditKey::Randomize ==> has_shape(
                final(self).cells(),
                old(self).cells().len(),
                old(self).cells()[0].len(),
            ),
    {
        proof {
            use_type_invariant(&*self);
        }
        match key {
            EditKey::Left => {
                if self.col > 0 {
                    self.col = self.col - 1;
                }
                false
            },
            EditKey::Right => {
                if self.col < self.grid.cols_size() - 1 {
                    self.col = self.col + 1;
                }
                false
            },
            EditKey::Up => {
                if self.row > 0 {
                    self.row = self.row - 1;
                }
                false
            },
            EditKey::Down => {
                if self.row < self.grid.rows_size() - 1 {
                    self.row = self.row + 1;
                }
                false
            },
            EditKey::Toggle => {
                let mut grid = self.grid.clone();
                let _ = grid.toggle(self.row, self.col);
                self.grid = grid;
                false
            },
            EditKey::Randomize => {
                let mut grid = self.grid.clone();
                grid.randomize();
                self.grid = grid;
                false
            },
            EditKey::Confirm => true,
        }
    }
}

} // verus!
