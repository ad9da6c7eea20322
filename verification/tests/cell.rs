use game_of_life::universe::next_state;
use game_of_life::Cell;

#[test]
fn cell_value_is_zero_or_one() {
    assert_eq!(Cell::Dead.value(), 0);
    assert_eq!(Cell::Alive.value(), 1);
}

#[test]
fn cell_toggle_flips() {
    let mut cell = Cell::Dead;
    cell.toggle();
    assert_eq!(cell, Cell::Alive);
    cell.toggle();
    assert_eq!(cell, Cell::Dead);
}

#[test]
fn live_cell_dies_of_underpopulation() {
    assert_eq!(next_state(Cell::Alive, 0), Cell::Dead);
    assert_eq!(next_state(Cell::Alive, 1), Cell::Dead);
}

#[test]
fn live_cell_survives_with_two_or_three() {
    assert_eq!(next_state(Cell::Alive, 2), Cell::Alive);
    assert_eq!(next_state(Cell::Alive, 3), Cell::Alive);
}

#[test]
fn live_cell_dies_of_overpopulation() {
    for count in 4..=8 {
        assert_eq!(next_state(Cell::Alive, count), Cell::Dead);
    }
}

#[test]
fn dead_cell_is_born_with_exactly_three() {
    assert_eq!(next_state(Cell::Dead, 3), Cell::Alive);
}

#[test]
fn dead_cell_stays_dead_otherwise() {
    for count in [0u8, 1, 2, 4, 5, 6, 7, 8] {
        assert_eq!(next_state(Cell::Dead, count), Cell::Dead);
    }
}
