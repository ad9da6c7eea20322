//! The fixed pattern that a new universe starts from.

use vstd::prelude::*;
use crate::cell::Cell;
use crate::grid::Grid;

verus! {

/// The width of a new universe.
pub const WIDTH: u32 = 64;

/// The height of a new universe.
pub const HEIGHT: u32 = 64;

/// `(row, col)` lies in one of the four slanted wedges of rows 5 to 16. The
/// wedges start at the quarter marks of the width and widen by one column per
/// row: the first and third towards the west, the second and fourth towards
/// the east.
pub open spec fn in_wedges(row: int, col: int) -> bool {
    4 < row <= 16 && {
        ||| 17 - row < col < 16
        ||| 15 < col < 15 + row
        ||| (31 < col < 48 && 49 - row < col)
        ||| 47 < col < 47 + row
    }
}

/// `(row, col)` lies in one of the two side bars of rows 17 to 24.
pub open spec fn in_bars(row: int, col: int) -> bool {
    16 < row <= 24 && (1 < col < 16 || 48 < col < 63)
}

/// `(row, col)` lies in the triangle that narrows from row 25 downwards.
pub open spec fn in_triangle(row: int, col: int) -> bool {
    24 < row && row - 24 < col < 88 - row
}

/// The cell at `(row, col)` is alive in a new universe.
pub open spec fn seed_alive(row: int, col: int) -> bool {
    in_wedges(row, col) || in_bars(row, col) || in_triangle(row, col)
}

/// The state of `(row, col)` in a new universe.
pub open spec fn seed_state(row: int, col: int) -> Cell {
    if seed_alive(row, col) {
        Cell::Alive
    } else {
        Cell::Dead
    }
}

/// The grid of a new universe.
pub open spec fn seed_grid() -> Grid {
    Grid {
        width: WIDTH as nat,
        height: HEIGHT as nat,
        cells: Seq::new(
            (WIDTH * HEIGHT) as nat,
            |i: int| seed_state(i / (WIDTH as int), i % (WIDTH as int)),
        ),
    }
}

/// The state of `(row, column)` in a new universe.
pub fn seed_cell(row: u32, column: u32) -> (cell: Cell)
    requires
        row < HEIGHT,
        column < WIDTH,
    ensures
        cell == seed_state(row as int, column as int),
{
    let width: u32 = WIDTH;
    let upper = row > 4 && row <= 16;
    if upper && column > width - row - 3 * width / 4 + 1 && column < width / 4 {
        Cell::Alive
    } else if upper && column > width / 4 - 1 && column < width / 4 + row - 1 {
        Cell::Alive
    } else if upper && column > width / 2 - 1 && column > width - row - width / 4 + 1
        && column < 3 * width / 4 {
        Cell::Alive
    } else if upper && column > 3 * width / 4 - 1 && column < 3 * width / 4 + row - 1 {
        Cell::Alive
    } else if row > 16 && row <= 24 && ((column > 1 && column < width / 4)
        || (column > 3 * width / 4 && column < width - 1)) {
        Cell::Alive
    } else if row > 24 && column > row - 24 && column < width - row + 24 {
        Cell::Alive
    } else {
        Cell::Dead
    }
}

} // verus!
