use game_of_life::cell::CellState;
use game_of_life::editor::{EditKey, Editor};
use game_of_life::grid::Grid;
use game_of_life::runner::{RunKey, Runner, BASE_SPEED_TICKS_PER_SECOND};

fn alive_positions(grid: &Grid) -> Vec<(usize, usize)> {
    let mut out = Vec::new();
    for r in 0..grid.rows_size() {
        for c in 0..grid.cols_size() {
            if grid.get(r, c).unwrap().state == CellState::Alive {
                out.push((r, c));
            }
        }
    }
    out
}

#[test]
fn editor_cursor_stops_at_the_edges() {
    let mut editor = Editor::new(Grid::new_blank(2, 3).unwrap());
    assert_eq!(editor.cursor(), (0, 0));
    assert_eq!(editor.press(EditKey::Left), false);
    assert_eq!(editor.press(EditKey::Up), false);
    assert_eq!(editor.cursor(), (0, 0));
    for _ in 0..5 {
        editor.press(EditKey::Right);
        editor.press(EditKey::Down);
    }
    assert_eq!(editor.cursor(), (1, 2));
    editor.press(EditKey::Left);
    assert_eq!(editor.cursor(), (1, 1));
    editor.press(EditKey::Up);
    assert_eq!(editor.cursor(), (0, 1));
}

#[test]
fn editor_toggles_the_cell_under_the_cursor() {
    let mut editor = Editor::new(Grid::new_blank(3, 3).unwrap());
    editor.press(EditKey::Down);
    editor.press(EditKey::Right);
    editor.press(EditKey::Right);
    editor.press(EditKey::Toggle);
    assert_eq!(alive_positions(editor.grid()), vec![(1, 2)]);
    editor.press(EditKey::Toggle);
    assert_eq!(alive_positions(editor.grid()), Vec::<(usize, usize)>::new());
}

#[test]
fn editor_randomize_keeps_shape_and_cursor() {
    let mut editor = Editor::new(Grid::new_blank(4, 7).unwrap());
    editor.press(EditKey::Down);
    editor.press(EditKey::Randomize);
    assert_eq!(editor.cursor(), (1, 0));
    assert_eq!(editor.grid().rows_size(), 4);
    assert_eq!(editor.grid().cols_size(), 7);
}

#[test]
fn editor_confirm_ends_editing() {
    let mut editor = Editor::new(Grid::new_blank(2, 2).unwrap());
    editor.press(EditKey::Toggle);
    assert_eq!(editor.press(EditKey::Confirm), true);
    let grid = editor.into_grid();
    assert_eq!(alive_positions(&grid), vec![(0, 0)]);
}

fn blinker() -> Grid {
    let mut grid = Grid::new_blank(3, 3).unwrap();
    for c in 0..3 {
        grid.toggle(1, c).unwrap();
    }
    grid
}

#[test]
fn runner_starts_at_base_speed_and_running() {
    let runner = Runner::new(&blinker());
    assert_eq!(runner.ticks_per_second(), BASE_SPEED_TICKS_PER_SECOND);
    assert_eq!(runner.ticks_per_second(), 5);
    assert_eq!(runner.is_paused(), false);
    assert_eq!(alive_positions(&runner.state().grid), vec![(1, 0), (1, 1), (1, 2)]);
}

#[test]
fn runner_steps_only_after_a_full_period() {
    let mut runner = Runner::new(&blinker());
    assert_eq!(runner.tick(200), false);
    assert_eq!(alive_positions(&runner.state().grid), vec![(1, 0), (1, 1), (1, 2)]);
    assert_eq!(runner.tick(201), true);
    assert_eq!(alive_positions(&runner.state().grid), vec![(0, 1), (1, 1), (2, 1)]);
}

#[test]
fn runner_speed_has_a_floor_of_one() {
    let mut runner = Runner::new(&blinker());
    assert_eq!(runner.press(RunKey::SpeedUp), false);
    assert_eq!(runner.ticks_per_second(), 6);
    for _ in 0..10 {
        runner.press(RunKey::SpeedDown);
    }
    assert_eq!(runner.ticks_per_second(), 1);
    assert_eq!(runner.tick(1000), false);
    assert_eq!(runner.tick(1001), true);
}

#[test]
fn runner_pause_suspends_steps() {
    let mut runner = Runner::new(&blinker());
    runner.press(RunKey::Pause);
    assert_eq!(runner.is_paused(), true);
    assert_eq!(runner.tick(10_000), false);
    assert_eq!(alive_positions(&runner.state().grid), vec![(1, 0), (1, 1), (1, 2)]);
    runner.press(RunKey::Pause);
    assert_eq!(runner.is_paused(), false);
    assert_eq!(runner.tick(10_000), true);
}

#[test]
fn runner_reset_returns_to_the_first_generation() {
    let mut runner = Runner::new(&blinker());
    runner.tick(1000);
    assert_eq!(alive_positions(&runner.state().grid), vec![(0, 1), (1, 1), (2, 1)]);
    assert_eq!(runner.press(RunKey::Reset), true);
    assert_eq!(alive_positions(&runner.state().grid), vec![(1, 0), (1, 1), (1, 2)]);
}
