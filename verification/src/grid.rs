//! The mathematical model of the simulation: a toroidal grid of cells, the
//! neighbour count, the transition rule and the two point mutations, all as
//! specification functions.

use vstd::prelude::*;
use vstd::arithmetic::div_mod::{
    lemma_fundamental_div_mod_converse,
    lemma_mod_add_multiples_vanish,
    lemma_small_mod,
};
use crate::cell::Cell;

verus! {

/// A grid as a mathematical value: its extent and its cells in row-major order.
pub struct Grid {
    pub width: nat,
    pub height: nat,
    pub cells: Seq<Cell>,
}

/// The coordinate reached from `pos` by moving `delta` steps on a ring of
/// `extent` positions.
pub open spec fn wrap(pos: int, delta: int, extent: int) -> int {
    (pos + delta) % extent
}

/// The step of at most one position that leads from `pos` to `target` on a
/// ring of `extent` positions, if there is one.
pub open spec fn ring_offset(pos: int, target: int, extent: int) -> Option<int> {
    if target == pos {
        Some(0)
    } else if target == wrap(pos, -1, extent) {
        Some(-1)
    } else if target == wrap(pos, 1, extent) {
        Some(1)
    } else {
        None
    }
}

/// The state of a cell in the next generation, given its current state and
/// the number of its live neighbours.
pub open spec fn rule(cell: Cell, live_neighbors: nat) -> Cell {
    match cell {
        Cell::Alive => if live_neighbors == 2 || live_neighbors == 3 {
            Cell::Alive
        } else {
            Cell::Dead
        },
        Cell::Dead => if live_neighbors == 3 {
            Cell::Alive
        } else {
            Cell::Dead
        },
    }
}

/// The glider shape, by offset from its centre: the whole southern row, the
/// cell north of the centre and the cell east of it are alive.
pub open spec fn glider_cell(delta_row: int, delta_col: int) -> Cell {
    if delta_row == 1 || (delta_row == -1 && delta_col == 0) || (delta_row == 0 && delta_col == 1) {
        Cell::Alive
    } else {
        Cell::Dead
    }
}

impl Grid {
    /// Both extents are positive and there is exactly one cell per coordinate.
    pub open spec fn wf(self) -> bool {
        &&& self.width > 0
        &&& self.height > 0
        &&& self.cells.len() == self.width * self.height
    }

    /// `(row, col)` names a cell of the grid.
    pub open spec fn in_bounds(self, row: int, col: int) -> bool {
        0 <= row < self.height && 0 <= col < self.width
    }

    /// The row-major position of `(row, col)` in `cells`.
    pub open spec fn index(self, row: int, col: int) -> int {
        row * self.width + col
    }

    /// The cell at `(row, col)`.
    pub open spec fn at(self, row: int, col: int) -> Cell {
        self.cells[self.index(row, col)]
    }

    /// The cell that lies `(delta_row, delta_col)` away from `(row, col)` on
    /// the torus.
    pub open spec fn toward(self, row: int, col: int, delta_row: int, delta_col: int) -> Cell {
        self.at(wrap(row, delta_row, self.height as int), wrap(col, delta_col, self.width as int))
    }

    /// The number of live cells among the eight neighbours of `(row, col)`.
    pub open spec fn live_neighbors(self, row: int, col: int) -> nat {
        self.toward(row, col, -1, -1).weight() + self.toward(row, col, -1, 0).weight()
            + self.toward(row, col, -1, 1).weight() + self.toward(row, col, 0, -1).weight()
            + self.toward(row, col, 0, 1).weight() + self.toward(row, col, 1, -1).weight()
            + self.toward(row, col, 1, 0).weight() + self.toward(row, col, 1, 1).weight()
    }

    /// The state of `(row, col)` in the next generation.
    pub open spec fn next_cell(self, row: int, col: int) -> Cell {
        rule(self.at(row, col), self.live_neighbors(row, col))
    }

    /// The next generation: every cell follows `rule` on this generation.
    pub open spec fn step(self) -> Grid {
        Grid {
            width: self.width,
            height: self.height,
            cells: Seq::new(
                self.cells.len(),
                |i: int| self.next_cell(i / (self.width as int), i % (self.width as int)),
            ),
        }
    }

    /// The grid with the cell at `(row, col)` replaced by `cell`.
    pub open spec fn with_cell(self, row: int, col: int, cell: Cell) -> Grid {
        Grid {
            width: self.width,
            height: self.height,
            cells: self.cells.update(self.index(row, col), cell),
        }
    }

    /// The grid with the cell at `(row, col)` flipped.
    pub open spec fn toggled(self, row: int, col: int) -> Grid {
        self.with_cell(row, col, self.at(row, col).flipped())
    }

    /// The grid after writing one cell of the glider centred at `(row, col)`.
    pub open spec fn stamp_cell(self, row: int, col: int, delta_row: int, delta_col: int) -> Grid {
        self.with_cell(
            wrap(row, delta_row, self.height as int),
            wrap(col, delta_col, self.width as int),
            glider_cell(delta_row, delta_col),
        )
    }

    /// The grid after writing one row of the glider, west to east.
    pub open spec fn stamp_row(self, row: int, col: int, delta_row: int) -> Grid {
        self.stamp_cell(row, col, delta_row, -1).stamp_cell(row, col, delta_row, 0).stamp_cell(
            row,
            col,
            delta_row,
            1,
        )
    }

    /// The grid after stamping a glider centred at `(row, col)`: nine writes,
    /// north row first and west to east within a row.
    pub open spec fn stamped(self, row: int, col: int) -> Grid {
        self.stamp_row(row, col, -1).stamp_row(row, col, 0).stamp_row(row, col, 1)
    }

    /// What a glider stamped at `(row, col)` leaves at `(target_row,
    /// target_col)` where no two of its nine cells coincide: the cell of the
    /// glider inside the patch, the cell of this grid outside it.
    pub open spec fn stamp_result(self, row: int, col: int, target_row: int, target_col: int) -> Cell {
        match (
            ring_offset(row, target_row, self.height as int),
            ring_offset(col, target_col, self.width as int),
        ) {
            (Some(delta_row), Some(delta_col)) => glider_cell(delta_row, delta_col),
            _ => self.at(target_row, target_col),
        }
    }

    /// The coordinates of the live cells.
    pub open spec fn live_cells(self) -> Set<(int, int)> {
        Set::new(|p: (int, int)| self.in_bounds(p.0, p.1) && self.at(p.0, p.1) == Cell::Alive)
    }

    /// No cell of the grid is alive.
    pub open spec fn all_dead(self) -> bool {
        forall|i: int| 0 <= i < self.cells.len() ==> self.cells[i] == Cell::Dead
    }
}

/// A step on a ring stays on the ring, and wraps at its two ends only.
pub proof fn lemma_wrap(pos: int, extent: int)
    requires
        0 <= pos < extent,
    ensures
        wrap(pos, -1, extent) == if pos == 0 { extent - 1 } else { pos - 1 },
        wrap(pos, 0, extent) == pos,
        wrap(pos, 1, extent) == if pos == extent - 1 { 0 } else { pos + 1 },
{
    lemma_small_mod(pos as nat, extent as nat);
    if pos == 0 {
        lemma_small_mod((extent - 1) as nat, extent as nat);
        lemma_mod_add_multiples_vanish(-1, extent);
    } else {
        lemma_small_mod((pos - 1) as nat, extent as nat);
    }
    if pos == extent - 1 {
        lemma_small_mod(0, extent as nat);
        lemma_mod_add_multiples_vanish(0, extent);
    } else {
        lemma_small_mod((pos + 1) as nat, extent as nat);
    }
}

/// One step back on a ring is `extent - 1` steps forward.
pub proof fn lemma_wrap_back(pos: int, extent: int)
    requires
        0 <= pos < extent,
    ensures
        wrap(pos, -1, extent) == (pos + (extent - 1)) % extent,
{
    lemma_mod_add_multiples_vanish(pos - 1, extent);
}

/// A coordinate inside the grid has its row-major position inside `cells`.
pub proof fn lemma_index_in_range(width: nat, height: nat, row: int, col: int)
    requires
        0 <= row < height,
        0 <= col < width,
    ensures
        0 <= row * width + col < width * height,
{
    assert(0 <= row * width && row * width + width <= width * height) by (nonlinear_arith)
        requires
            0 <= row < height,
            0 < width,
    ;
}

/// Row and column are recovered from a row-major position by division.
pub proof fn lemma_index_row_col(width: nat, row: int, col: int)
    requires
        0 <= col < width,
    ensures
        (row * width + col) / (width as int) == row,
        (row * width + col) % (width as int) == col,
{
    lemma_fundamental_div_mod_converse(row * width + col, width as int, row, col);
}

/// Two coordinates with the same row-major position are the same.
pub proof fn lemma_index_injective(width: nat, row_a: int, col_a: int, row_b: int, col_b: int)
    requires
        0 <= col_a < width,
        0 <= col_b < width,
        row_a * width + col_a == row_b * width + col_b,
    ensures
        row_a == row_b,
        col_a == col_b,
{
    lemma_index_row_col(width, row_a, col_a);
    lemma_index_row_col(width, row_b, col_b);
}

} // verus!
