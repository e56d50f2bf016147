use game_of_life::cell::{Cell, CellState};

#[test]
fn test_new_cell_dead() {
    let cell = Cell::new(CellState::Dead);
    assert_eq!(cell.state, CellState::Dead);
}

#[test]
fn test_new_cell_alive() {
    let cell = Cell::new(CellState::Alive);
    assert_eq!(cell.state, CellState::Alive);
}

#[test]
fn cell_state_iter_lists_both_states_once() {
    assert_eq!(CellState::iter(), vec![CellState::Dead, CellState::Alive]);
}

#[test]
fn toggle_flips_both_ways() {
    let mut cell = Cell::new(CellState::Dead);
    cell.toggle();
    assert_eq!(cell.state, CellState::Alive);
    cell.toggle();
    assert_eq!(cell.state, CellState::Dead);
}

#[test]
fn kill_and_resurrect_set_the_state() {
    let mut cell = Cell::new(CellState::Alive);
    cell.kill();
    assert_eq!(cell.state, CellState::Dead);
    cell.kill();
    assert_eq!(cell.state, CellState::Dead);
    cell.resurrect();
    assert_eq!(cell.state, CellState::Alive);
    cell.resurrect();
    assert_eq!(cell.state, CellState::Alive);
}

#[test]
fn random_cells_take_both_states() {
    let mut dead = 0;
    let mut alive = 0;
    for _ in 0..1000 {
        match Cell::new_with_random_state().state {
            CellState::Dead => dead += 1,
            CellState::Alive => alive += 1,
        }
    }
    assert!(dead > 0);
    assert!(alive > 0);
}

#[test]
fn next_state_follows_the_rule_table() {
    for n in 0..=8u32 {
        let survive = if n == 2 || n == 3 { CellState::Alive } else { CellState::Dead };
        let born = if n == 3 { CellState::Alive } else { CellState::Dead };
        assert_eq!(CellState::Alive.next(n), survive);
        assert_eq!(CellState::Dead.next(n), born);
    }
}

#[test]
fn from_draw_maps_indices_to_states() {
    assert_eq!(Cell::from_draw(0).state, CellState::Dead);
    assert_eq!(Cell::from_draw(1).state, CellState::Alive);
}
