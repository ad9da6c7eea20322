use game_of_life::{Cell, Universe};

fn empty() -> Universe {
    let mut universe = Universe::new();
    for row in 0..universe.height() {
        for column in 0..universe.width() {
            let idx = universe.get_index(row, column);
            if universe.cells()[idx] == Cell::Alive {
                universe.toggle_cell(row, column);
            }
        }
    }
    universe
}

fn with_live(cells: &[(u32, u32)]) -> Universe {
    let mut universe = empty();
    for &(row, column) in cells {
        universe.toggle_cell(row, column);
    }
    universe
}

fn live(universe: &Universe) -> Vec<(u32, u32)> {
    let mut found = Vec::new();
    for row in 0..universe.height() {
        for column in 0..universe.width() {
            if universe.cells()[universe.get_index(row, column)] == Cell::Alive {
                found.push((row, column));
            }
        }
    }
    found
}

fn sorted(mut cells: Vec<(u32, u32)>) -> Vec<(u32, u32)> {
    cells.sort();
    cells
}

#[test]
fn new_universe_is_64_by_64() {
    let universe = Universe::new();
    assert_eq!(universe.width(), 64);
    assert_eq!(universe.height(), 64);
    assert_eq!(universe.cells().len(), 64 * 64);
}

#[test]
fn extent_survives_every_operation() {
    let mut universe = Universe::new();
    universe.tick();
    universe.toggle_cell(63, 63);
    universe.add_glider(0, 0);
    universe.tick();
    assert_eq!(universe.width(), 64);
    assert_eq!(universe.height(), 64);
    assert_eq!(universe.cells().len() as u32, universe.width() * universe.height());
}

#[test]
fn get_index_is_row_major() {
    let universe = Universe::new();
    assert_eq!(universe.get_index(0, 0), 0);
    assert_eq!(universe.get_index(0, 63), 63);
    assert_eq!(universe.get_index(1, 0), 64);
    assert_eq!(universe.get_index(5, 3), 323);
    assert_eq!(universe.get_index(63, 63), 4095);
}

#[test]
fn empty_helper_clears_everything() {
    assert_eq!(live(&empty()), vec![]);
}

#[test]
fn toggle_flips_exactly_one_cell() {
    let before = Universe::new();
    let mut after = Universe::new();
    after.toggle_cell(7, 9);
    let changed = before.get_index(7, 9);
    for idx in 0..before.cells().len() {
        if idx == changed {
            assert_ne!(before.cells()[idx], after.cells()[idx]);
        } else {
            assert_eq!(before.cells()[idx], after.cells()[idx]);
        }
    }
}

#[test]
fn toggle_turns_dead_alive_and_alive_dead() {
    let mut universe = empty();
    universe.toggle_cell(3, 4);
    assert_eq!(live(&universe), vec![(3, 4)]);
    universe.toggle_cell(3, 4);
    assert_eq!(live(&universe), vec![]);
}

#[test]
fn toggle_twice_restores_the_grid() {
    let before = Universe::new();
    let mut after = Universe::new();
    after.toggle_cell(20, 5);
    after.toggle_cell(20, 5);
    assert_eq!(before.cells(), after.cells());
    after.toggle_cell(0, 0);
    after.toggle_cell(0, 0);
    assert_eq!(before.cells(), after.cells());
}

#[test]
fn neighbors_wrap_from_first_row_to_last() {
    let universe = with_live(&[(63, 5)]);
    assert_eq!(universe.live_neighbor_count(0, 4), 1);
    assert_eq!(universe.live_neighbor_count(0, 5), 1);
    assert_eq!(universe.live_neighbor_count(0, 6), 1);
    assert_eq!(universe.live_neighbor_count(0, 7), 0);
    assert_eq!(universe.live_neighbor_count(1, 5), 0);
    assert_eq!(universe.live_neighbor_count(63, 5), 0);
}

#[test]
fn neighbors_wrap_from_last_row_to_first() {
    let universe = with_live(&[(0, 30)]);
    assert_eq!(universe.live_neighbor_count(63, 29), 1);
    assert_eq!(universe.live_neighbor_count(63, 30), 1);
    assert_eq!(universe.live_neighbor_count(63, 31), 1);
    assert_eq!(universe.live_neighbor_count(62, 30), 0);
}

#[test]
fn neighbors_wrap_between_first_and_last_column() {
    let universe = with_live(&[(10, 63)]);
    assert_eq!(universe.live_neighbor_count(9, 0), 1);
    assert_eq!(universe.live_neighbor_count(10, 0), 1);
    assert_eq!(universe.live_neighbor_count(11, 0), 1);
    assert_eq!(universe.live_neighbor_count(10, 1), 0);
    let universe = with_live(&[(10, 0)]);
    assert_eq!(universe.live_neighbor_count(9, 63), 1);
    assert_eq!(universe.live_neighbor_count(10, 63), 1);
    assert_eq!(universe.live_neighbor_count(11, 63), 1);
    assert_eq!(universe.live_neighbor_count(10, 62), 0);
}

#[test]
fn neighbors_wrap_across_the_corner() {
    let universe = with_live(&[(63, 63)]);
    assert_eq!(universe.live_neighbor_count(0, 0), 1);
    let universe = with_live(&[(0, 0)]);
    assert_eq!(universe.live_neighbor_count(63, 63), 1);
    assert_eq!(universe.live_neighbor_count(0, 0), 0);
}

#[test]
fn neighbor_count_sums_all_eight() {
    let universe = with_live(&[
        (4, 4), (4, 5), (4, 6),
        (5, 4), (5, 5), (5, 6),
        (6, 4), (6, 5), (6, 6),
    ]);
    assert_eq!(universe.live_neighbor_count(5, 5), 8);
    assert_eq!(universe.live_neighbor_count(4, 4), 3);
    assert_eq!(universe.live_neighbor_count(4, 5), 5);
    assert_eq!(universe.live_neighbor_count(3, 5), 3);
    assert_eq!(universe.live_neighbor_count(3, 3), 1);
    assert_eq!(universe.live_neighbor_count(2, 5), 0);
}

#[test]
fn neighbor_count_stays_within_eight() {
    let mut universe = Universe::new();
    for _ in 0..3 {
        for row in 0..64 {
            for column in 0..64 {
                assert!(universe.live_neighbor_count(row, column) <= 8);
            }
        }
        universe.tick();
    }
}

#[test]
fn tick_is_deterministic() {
    let mut first = Universe::new();
    let mut second = Universe::new();
    assert_eq!(first.cells(), second.cells());
    for _ in 0..5 {
        first.tick();
        second.tick();
        assert_eq!(first.cells(), second.cells());
    }
}

#[test]
fn tick_turns_a_row_of_three_into_a_column() {
    let mut universe = with_live(&[(10, 10), (10, 11), (10, 12)]);
    universe.tick();
    assert_eq!(live(&universe), vec![(9, 11), (10, 11), (11, 11)]);
    universe.tick();
    assert_eq!(live(&universe), vec![(10, 10), (10, 11), (10, 12)]);
}

#[test]
fn tick_reads_only_the_generation_before() {
    let mut universe = with_live(&[(10, 10), (10, 11), (10, 12)]);
    let mut expected = Vec::new();
    for row in 0..64 {
        for column in 0..64 {
            let idx = universe.get_index(row, column);
            let count = universe.live_neighbor_count(row, column);
            let alive = match (universe.cells()[idx], count) {
                (Cell::Alive, 2) | (Cell::Alive, 3) => true,
                (Cell::Dead, 3) => true,
                _ => false,
            };
            if alive {
                expected.push((row, column));
            }
        }
    }
    universe.tick();
    assert_eq!(live(&universe), expected);
}

#[test]
fn tick_kills_a_lonely_cell() {
    let mut universe = with_live(&[(30, 30)]);
    universe.tick();
    assert_eq!(live(&universe), vec![]);
    let mut universe = with_live(&[(30, 30), (30, 31)]);
    universe.tick();
    assert_eq!(live(&universe), vec![]);
}

#[test]
fn tick_keeps_a_block() {
    let block = vec![(20, 20), (20, 21), (21, 20), (21, 21)];
    let mut universe = with_live(&block);
    universe.tick();
    assert_eq!(live(&universe), block);
}

#[test]
fn tick_kills_a_crowded_cell() {
    let mut universe = with_live(&[(5, 5), (4, 4), (4, 6), (6, 4), (6, 6)]);
    universe.tick();
    assert_eq!(live(&universe), vec![(4, 5), (5, 4), (5, 6), (6, 5)]);
}

#[test]
fn tick_wraps_at_the_edges() {
    let mut universe = with_live(&[(0, 63), (0, 0), (0, 1)]);
    universe.tick();
    assert_eq!(sorted(live(&universe)), vec![(0, 0), (1, 0), (63, 0)]);
}

#[test]
fn tick_leaves_an_empty_grid_empty() {
    let mut universe = empty();
    universe.tick();
    assert_eq!(live(&universe), vec![]);
}

#[test]
fn glider_on_a_dead_grid_has_five_live_cells() {
    let mut universe = empty();
    universe.add_glider(10, 20);
    assert_eq!(
        live(&universe),
        vec![(9, 20), (10, 21), (11, 19), (11, 20), (11, 21)]
    );
}

#[test]
fn glider_wraps_at_the_first_corner() {
    let mut universe = empty();
    universe.add_glider(0, 0);
    assert_eq!(
        sorted(live(&universe)),
        vec![(0, 1), (1, 0), (1, 1), (1, 63), (63, 0)]
    );
}

#[test]
fn glider_wraps_at_the_last_corner() {
    let mut universe = empty();
    universe.add_glider(63, 63);
    assert_eq!(
        sorted(live(&universe)),
        vec![(0, 0), (0, 62), (0, 63), (62, 63), (63, 0)]
    );
}

#[test]
fn glider_overwrites_all_nine_cells() {
    let mut patch = Vec::new();
    for row in 39..=43 {
        for column in 39..=43 {
            patch.push((row, column));
        }
    }
    let mut universe = with_live(&patch);
    universe.add_glider(41, 41);
    let mut expected = Vec::new();
    for row in 39..=43u32 {
        for column in 39..=43u32 {
            let inside = (40..=42).contains(&row) && (40..=42).contains(&column);
            let glider = row == 42 || (row == 40 && column == 41) || (row == 41 && column == 42);
            if !inside || glider {
                expected.push((row, column));
            }
        }
    }
    assert_eq!(live(&universe), expected);
}

#[test]
fn glider_leaves_the_rest_of_the_grid() {
    let before = Universe::new();
    let mut after = Universe::new();
    after.add_glider(30, 30);
    for row in 0..64u32 {
        for column in 0..64u32 {
            let idx = before.get_index(row, column);
            let inside = (29..=31).contains(&row) && (29..=31).contains(&column);
            if !inside {
                assert_eq!(before.cells()[idx], after.cells()[idx]);
            }
        }
    }
    let at = |row: u32, column: u32| after.cells()[after.get_index(row, column)];
    assert_eq!(at(29, 29), Cell::Dead);
    assert_eq!(at(29, 30), Cell::Alive);
    assert_eq!(at(29, 31), Cell::Dead);
    assert_eq!(at(30, 29), Cell::Dead);
    assert_eq!(at(30, 30), Cell::Dead);
    assert_eq!(at(30, 31), Cell::Alive);
    assert_eq!(at(31, 29), Cell::Alive);
    assert_eq!(at(31, 30), Cell::Alive);
    assert_eq!(at(31, 31), Cell::Alive);
}

#[test]
fn glider_travels_one_cell_south_east_in_four_ticks() {
    let mut universe = empty();
    universe.add_glider(10, 20);
    for _ in 0..4 {
        universe.tick();
    }
    assert_eq!(
        live(&universe),
        vec![(10, 21), (11, 22), (12, 20), (12, 21), (12, 22)]
    );
}
