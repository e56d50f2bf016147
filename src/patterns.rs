use crate::cell::{Cell, CellState};
use crate::grid::has_shape;
use crate::rules::{alive_neighbors, generations, is_grid, next_generation, next_state};
use vstd::prelude::*;

verus! {

/// Whether the live cells of `g` are exactly the positions that satisfy `p`.
pub open spec fn alive_exactly(g: Seq<Seq<Cell>>, p: spec_fn(int, int) -> bool) -> bool {
    forall|i: int, j: int|
        0 <= i < g.len() && 0 <= j < g[i].len() ==> (#[trigger] g[i][j].state
            == CellState::Alive <==> p(i, j))
}

/// The next generation has the rows and columns of the current one.
pub proof fn lemma_next_generation_shape(g: Seq<Seq<Cell>>)
    requires
        is_grid(g),
    ensures
        is_grid(next_generation(g)),
        has_shape(next_generation(g), g.len(), g[0].len()),
{
    let n = next_generation(g);
    assert(n[0].len() == g[0].len());
    assert forall|i: int| 0 <= i < n.len() implies #[trigger] n[i].len() == g[0].len() by {
        assert(n[i].len() == g[i].len());
    }
}

/// Two grids of one shape with the same live cells are the same grid.
pub proof fn lemma_alive_determines_grid(
    a: Seq<Seq<Cell>>,
    b: Seq<Seq<Cell>>,
    p: spec_fn(int, int) -> bool,
)
    requires
        is_grid(a),
        has_shape(b, a.len(), a[0].len()),
        alive_exactly(a, p),
        alive_exactly(b, p),
    ensures
        a == b,
{
    assert forall|i: int| 0 <= i < a.len() implies #[trigger] a[i] == b[i] by {
        assert forall|j: int| 0 <= j < a[i].len() implies #[trigger] a[i][j] == b[i][j] by {
            assert(a[i][j].state == CellState::Alive <==> p(i, j));
            assert(b[i][j].state == CellState::Alive <==> p(i, j));
        }
        assert(a[i] =~= b[i]);
    }
    assert(a =~= b);
}

/// The fate of a lone cell: a live cell with no live neighbour dies; a dead
/// cell comes alive with exactly three live neighbours and stays dead with
/// any other number.
pub proof fn lemma_isolation(g: Seq<Seq<Cell>>, r: int, c: int)
    requires
        is_grid(g),
        0 <= r < g.len(),
        0 <= c < g[0].len(),
    ensures
        g[r][c].state == CellState::Alive && alive_neighbors(g, r, c) == 0
            ==> next_generation(g)[r][c].state == CellState::Dead,
        g[r][c].state == CellState::Dead && alive_neighbors(g, r, c) == 3
            ==> next_generation(g)[r][c].state == CellState::Alive,
        g[r][c].state == CellState::Dead && alive_neighbors(g, r, c) != 3
            ==> next_generation(g)[r][c].state == CellState::Dead,
{
    assert(g[r].len() == g[0].len());
}

/// The 2×2 block whose top-left cell is `(r, c)`.
pub open spec fn block(r: int, c: int, i: int, j: int) -> bool {
    r <= i <= r + 1 && c <= j <= c + 1
}

proof fn lemma_block_step(g: Seq<Seq<Cell>>, r: int, c: int)
    requires
        is_grid(g),
        1 <= r && r + 2 < g.len(),
        1 <= c && c + 2 < g[0].len(),
        alive_exactly(g, |i: int, j: int| block(r, c, i, j)),
    ensures
        next_generation(g) == g,
{
    let n = next_generation(g);
    lemma_next_generation_shape(g);
    assert forall|i: int, j: int| 0 <= i < n.len() && 0 <= j < n[i].len() implies (
    #[trigger] n[i][j].state == CellState::Alive <==> block(r, c, i, j)) by {
        assert(g[i].len() == g[0].len());
        assert(n[i][j].state == next_state(g[i][j].state, alive_neighbors(g, i, j)));
    }
    lemma_alive_determines_grid(g, n, |i: int, j: int| block(r, c, i, j));
}

/// A 2×2 block of live cells with at least one dead cell around it on every
/// side, and no other live cell, is a still life: every later generation is
/// the grid itself.
pub proof fn lemma_block_still_life(g: Seq<Seq<Cell>>, r: int, c: int, n: nat)
    requires
        is_grid(g),
        1 <= r && r + 2 < g.len(),
        1 <= c && c + 2 < g[0].len(),
        alive_exactly(g, |i: int, j: int| block(r, c, i, j)),
    ensures
        generations(g, n) == g,
    decreases n,
{
    if n > 0 {
        lemma_block_still_life(g, r, c, (n - 1) as nat);
        lemma_block_step(g, r, c);
    }
}

/// Three cells in row `r`, centred on column `c`.
pub open spec fn horizontal_line(r: int, c: int, i: int, j: int) -> bool {
    i == r && c - 1 <= j <= c + 1
}

/// Three cells in column `c`, centred on row `r`.
pub open spec fn vertical_line(r: int, c: int, i: int, j: int) -> bool {
    j == c && r - 1 <= i <= r + 1
}

proof fn lemma_horizontal_to_vertical(g: Seq<Seq<Cell>>, r: int, c: int)
    requires
        is_grid(g),
        1 <= r && r + 1 < g.len(),
        1 <= c && c + 1 < g[0].len(),
        alive_exactly(g, |i: int, j: int| horizontal_line(r, c, i, j)),
    ensures
        has_shape(next_generation(g), g.len(), g[0].len()),
        alive_exactly(next_generation(g), |i: int, j: int| vertical_line(r, c, i, j)),
{
    let n = next_generation(g);
    lemma_next_generation_shape(g);
    assert forall|i: int, j: int| 0 <= i < n.len() && 0 <= j < n[i].len() implies (
    #[trigger] n[i][j].state == CellState::Alive <==> vertical_line(r, c, i, j)) by {
        assert(g[i].len() == g[0].len());
        assert(n[i][j].state == next_state(g[i][j].state, alive_neighbors(g, i, j)));
    }
}

proof fn lemma_vertical_to_horizontal(g: Seq<Seq<Cell>>, r: int, c: int)
    requires
        is_grid(g),
        1 <= r && r + 1 < g.len(),
        1 <= c && c + 1 < g[0].len(),
        alive_exactly(g, |i: int, j: int| vertical_line(r, c, i, j)),
    ensures
        has_shape(next_generation(g), g.len(), g[0].len()),
        alive_exactly(next_generation(g), |i: int, j: int| horizontal_line(r, c, i, j)),
{
    let n = next_generation(g);
    lemma_next_generation_shape(g);
    assert forall|i: int, j: int| 0 <= i < n.len() && 0 <= j < n[i].len() implies (
    #[trigger] n[i][j].state == CellState::Alive <==> horizontal_line(r, c, i, j)) by {
        assert(g[i].len() == g[0].len());
        assert(n[i][j].state == next_state(g[i][j].state, alive_neighbors(g, i, j)));
    }
}

/// A blinker oscillates with period two: a horizontal line of three live
/// cells, and no other live cell, becomes the vertical line through its
/// middle, which becomes the horizontal line again, the very grid it started as.
pub proof fn lemma_blinker(g: Seq<Seq<Cell>>, r: int, c: int)
    requires
        is_grid(g),
        1 <= r && r + 1 < g.len(),
        1 <= c && c + 1 < g[0].len(),
        alive_exactly(g, |i: int, j: int| horizontal_line(r, c, i, j)),
    ensures
        has_shape(next_generation(g), g.len(), g[0].len()),
        alive_exactly(next_generation(g), |i: int, j: int| vertical_line(r, c, i, j)),
        next_generation(next_generation(g)) == g,
{
    let n = next_generation(g);
    lemma_horizontal_to_vertical(g, r, c);
    lemma_next_generation_shape(g);
    lemma_vertical_to_horizontal(n, r, c);
    lemma_next_generation_shape(n);
    lemma_alive_determines_grid(g, next_generation(n), |i: int, j: int| horizontal_line(r, c, i, j));
}

/// Phase `k` (from 0 to 3) of a glider that moves towards higher rows and
/// columns; in phase 0 its cells lie in the 3×3 box whose top-left corner is `(r, c)`:
/// ```text
/// . # .
/// . . #
/// # # #
/// ```
pub open spec fn glider(k: int, r: int, c: int, i: int, j: int) -> bool {
    let a = i - r;
    let b = j - c;
    if k == 0 {
        (a == 0 && b == 1) || (a == 1 && b == 2) || (a == 2 && 0 <= b <= 2)
    } else if k == 1 {
        (a == 1 && (b == 0 || b == 2)) || (a == 2 && 1 <= b <= 2) || (a == 3 && b == 1)
    } else if k == 2 {
        (a == 1 && b == 2) || (a == 2 && (b == 0 || b == 2)) || (a == 3 && 1 <= b <= 2)
    } else {
        (a == 1 && b == 1) || (a == 2 && 2 <= b <= 3) || (a == 3 && 1 <= b <= 2)
    }
}

/// The live cells of the glider's phase `k + 1` (phase 0 one cell further
/// down and right after phase 3).
pub open spec fn glider_next(k: int, r: int, c: int, i: int, j: int) -> bool {
    if k == 3 {
        glider(0, r + 1, c + 1, i, j)
    } else {
        glider(k + 1, r, c, i, j)
    }
}

proof fn lemma_glider_step(g: Seq<Seq<Cell>>, k: int, r: int, c: int)
    requires
        is_grid(g),
        0 <= k <= 3,
        0 <= r && r + 3 < g.len(),
        0 <= c && c + 3 < g[0].len(),
        alive_exactly(g, |i: int, j: int| glider(k, r, c, i, j)),
    ensures
        has_shape(next_generation(g), g.len(), g[0].len()),
        alive_exactly(next_generation(g), |i: int, j: int| glider_next(k, r, c, i, j)),
{
    let n = next_generation(g);
    lemma_next_generation_shape(g);
    assert forall|i: int, j: int| 0 <= i < n.len() && 0 <= j < n[i].len() implies (
    #[trigger] n[i][j].state == CellState::Alive <==> glider_next(k, r, c, i, j)) by {
        assert(g[i].len() == g[0].len());
        assert(n[i][j].state == next_state(g[i][j].state, alive_neighbors(g, i, j)));
    }
}

/// A glider, with no other live cell and room in the grid for the 4×4 box
/// that it crosses, goes through its four phases and then stands as its
/// first phase again, one row lower and one column further right.
pub proof fn lemma_glider(g: Seq<Seq<Cell>>, r: int, c: int)
    requires
        is_grid(g),
        0 <= r && r + 3 < g.len(),
        0 <= c && c + 3 < g[0].len(),
        alive_exactly(g, |i: int, j: int| glider(0, r, c, i, j)),
    ensures
        alive_exactly(generations(g, 1), |i: int, j: int| glider(1, r, c, i, j)),
        alive_exactly(generations(g, 2), |i: int, j: int| glider(2, r, c, i, j)),
        alive_exactly(generations(g, 3), |i: int, j: int| glider(3, r, c, i, j)),
        has_shape(generations(g, 4), g.len(), g[0].len()),
        alive_exactly(generations(g, 4), |i: int, j: int| glider(0, r + 1, c + 1, i, j)),
{
    reveal_with_fuel(generations, 5);
    let g1 = next_generation(g);
    let g2 = next_generation(g1);
    let g3 = next_generation(g2);
    lemma_glider_step(g, 0, r, c);
    lemma_next_generation_shape(g);
    assert(alive_exactly(g1, |i: int, j: int| glider(1, r, c, i, j)));
    lemma_glider_step(g1, 1, r, c);
    lemma_next_generation_shape(g1);
    assert(alive_exactly(g2, |i: int, j: int| glider(2, r, c, i, j)));
    lemma_glider_step(g2, 2, r, c);
    lemma_next_generation_shape(g2);
    assert(alive_exactly(g3, |i: int, j: int| glider(3, r, c, i, j)));
    lemma_glider_step(g3, 3, r, c);
}

} // verus!
