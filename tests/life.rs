use game_of_life::cell::{Cell, CellState};
use game_of_life::grid::Grid;
use game_of_life::life::LifeState;

fn cells(rows: &[&str]) -> Vec<Vec<Cell>> {
    rows.iter()
        .map(|row| {
            row.chars()
                .map(|ch| {
                    if ch == '#' {
                        Cell::new(CellState::Alive)
                    } else {
                        Cell::new(CellState::Dead)
                    }
                })
                .collect()
        })
        .collect()
}

fn picture_of(grid: &Grid) -> Vec<String> {
    (0..grid.rows_size())
        .map(|r| {
            (0..grid.cols_size())
                .map(|c| match grid.get(r, c).unwrap().state {
                    CellState::Alive => '#',
                    CellState::Dead => '.',
                })
                .collect()
        })
        .collect()
}

fn rows_picture(rows: &[Vec<Cell>]) -> Vec<String> {
    rows.iter()
        .map(|row| {
            row.iter()
                .map(|cell| match cell.state {
                    CellState::Alive => '#',
                    CellState::Dead => '.',
                })
                .collect()
        })
        .collect()
}

#[test]
fn life_state_copies_its_grid() {
    let mut grid = Grid::new(&cells(&["...", "###", "..."])).unwrap();
    let state = LifeState::new(&grid);
    grid.toggle(0, 0).unwrap();
    assert_eq!(picture_of(&state.grid), vec!["...", "###", "..."]);
}

#[test]
fn step_returns_an_independent_snapshot() {
    let grid = Grid::new(&cells(&["...", "###", "..."])).unwrap();
    let mut state = LifeState::new(&grid);
    let first = state.step();
    assert_eq!(picture_of(&first.grid), vec![".#.", ".#.", ".#."]);
    assert_eq!(picture_of(&state.grid), vec![".#.", ".#.", ".#."]);
    let second = state.step();
    assert_eq!(picture_of(&second.grid), vec!["...", "###", "..."]);
    assert_eq!(picture_of(&first.grid), vec![".#.", ".#.", ".#."]);
    assert_eq!(picture_of(&grid), vec!["...", "###", "..."]);
}

#[test]
fn old_state_steps_a_blinker() {
    let start = vec![".....", "..#..", "..#..", "..#..", "....."];
    let state = game_of_life::life_old::LifeState::new(cells(&start));
    let next = state.step();
    assert_eq!(
        rows_picture(&next.grid),
        vec![".....", ".....", ".###.", ".....", "....."]
    );
    let back = next.step();
    assert_eq!(rows_picture(&back.grid), start);
    assert_eq!(rows_picture(&state.grid), start);
}

#[test]
fn old_state_moves_a_glider() {
    let start = vec![
        "..#.......",
        "#.#.......",
        ".##.......",
        "..........",
        "..........",
        "..........",
        "..........",
        "..........",
        "..........",
        "..........",
    ];
    let mut state = game_of_life::life_old::LifeState::new(cells(&start));
    for _ in 0..4 {
        state = state.step();
    }
    let moved = vec![
        "..........",
        "...#......",
        ".#.#......",
        "..##......",
        "..........",
        "..........",
        "..........",
        "..........",
        "..........",
        "..........",
    ];
    assert_eq!(rows_picture(&state.grid), moved);
}

#[test]
fn old_state_agrees_with_grid_update() {
    let rows = ["#..#.", ".##..", "#...#", "..#.#"];
    let old = game_of_life::life_old::LifeState::new(cells(&rows)).step();
    let mut grid = Grid::new(&cells(&rows)).unwrap();
    grid.update();
    assert_eq!(rows_picture(&old.grid), picture_of(&grid));
}

#[test]
fn old_random_state_is_a_hundred_square() {
    let state = game_of_life::life_old::LifeState::new_with_random_seed();
    assert_eq!(state.grid.len(), 100);
    assert!(state.grid.iter().all(|row| row.len() == 100));
}

#[test]
fn old_state_with_empty_rows_steps_to_itself() {
    let state = game_of_life::life_old::LifeState::new(vec![Vec::new(), Vec::new()]);
    let next = state.step();
    assert_eq!(next.grid.len(), 2);
    assert!(next.grid.iter().all(|row| row.is_empty()));
}
