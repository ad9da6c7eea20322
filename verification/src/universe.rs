//! The executable universe: a grid of cells that is stepped and edited in
//! place, with every operation tied to the model in `grid`.

use vstd::prelude::*;
use crate::cell::Cell;
use crate::grid::{
    lemma_index_in_range,
    lemma_index_row_col,
    lemma_wrap,
    lemma_wrap_back,
    rule,
    Grid,
};
use crate::seed::{seed_cell, seed_grid, seed_state, HEIGHT, WIDTH};

verus! {

/// A toroidal grid of cells.
pub struct Universe {
    width: u32,
    height: u32,
    cells: Vec<Cell>,
}

/// The coordinate `step` positions after `pos` on a ring of `extent`
/// positions.
fn advance(pos: u32, step: u32, extent: u32) -> (target: u32)
    requires
        pos < extent,
    ensures
        target == (pos + step) % (extent as int),
        target < extent,
{
    (((pos as u64) + (step as u64)) % (extent as u64)) as u32
}

/// The state of a cell in the next generation, given its current state and
/// the number of its live neighbours.
pub fn next_state(cell: Cell, live_neighbors: u8) -> (next: Cell)
    ensures
        next == rule(cell, live_neighbors as nat),
{
    match cell {
        Cell::Alive => if live_neighbors < 2 {
            Cell::Dead
        } else if live_neighbors == 2 || live_neighbors == 3 {
            Cell::Alive
        } else {
            Cell::Dead
        },
        Cell::Dead => if live_neighbors == 3 {
            Cell::Alive
        } else {
            Cell::Dead
        },
    }
}

impl View for Universe {
    type V = Grid;

    closed spec fn view(&self) -> Grid {
        Grid { width: self.width as nat, height: self.height as nat, cells: self.cells@ }
    }
}

impl Universe {
    /// The universe is a well-formed grid.
    pub open spec fn wf(&self) -> bool {
        self@.wf()
    }

    /// A universe of 64 by 64 cells that holds the seed pattern.
    pub fn new() -> (universe: Universe)
        ensures
            universe.wf(),
            universe@ == seed_grid(),
    {
        let width: u32 = WIDTH;
        let height: u32 = HEIGHT;
        let mut cells: Vec<Cell> = Vec::new();
        for i in 0..width * height
            invariant
                width == WIDTH,
                height == HEIGHT,
                cells@.len() == i,
                forall|k: int|
                    0 <= k < i ==> cells@[k] == seed_state(
                        k / (WIDTH as int),
                        k % (WIDTH as int),
                    ),
        {
            let column: u32 = i % width;
            let row: u32 = i / width;
            cells.push(seed_cell(row, column));
        }
        assert(cells@ =~= seed_grid().cells);
        Universe { width, height, cells }
    }

    /// The number of columns.
    pub fn width(&self) -> (width: u32)
        ensures
            width == self@.width,
    {
        self.width
    }

    /// The number of rows.
    pub fn height(&self) -> (height: u32)
        ensures
            height == self@.height,
    {
        self.height
    }

    /// The cells in row-major order.
    pub fn cells(&self) -> (cells: &[Cell])
        ensures
            cells@ == self@.cells,
            self.wf() ==> cells@.len() == self@.width * self@.height,
    {
        self.cells.as_slice()
    }

    /// Advances the universe by one generation: every cell follows the rule
    /// on the generation before the call.
    pub fn tick(&mut self)
        requires
            old(self).wf(),
        ensures
            final(self).wf(),
            final(self)@ == old(self)@.step(),
    {
        let ghost before = self@;
        let mut next = self.cells.clone();

        let mut row: u32 = 0;
        assert(0 * before.width == 0) by (nonlinear_arith);
        while row < self.height
            invariant
                self.wf(),
                self@ == before,
                row <= self.height,
                next@.len() == before.cells.len(),
                forall|i: int|
                    0 <= i < row * before.width ==> #[trigger] next@[i] == before.next_cell(
                        i / (before.width as int),
                        i % (before.width as int),
                    ),
            decreases self.height - row,
        {
            let mut col: u32 = 0;
            while col < self.width
                invariant
                    self.wf(),
                    self@ == before,
                    row < self.height,
                    col <= self.width,
                    next@.len() == before.cells.len(),
                    forall|i: int|
                        0 <= i < row * before.width + col ==> #[trigger] next@[i]
                            == before.next_cell(
                            i / (before.width as int),
                            i % (before.width as int),
                        ),
                decreases self.width - col,
            {
                let idx: usize = self.get_index(row, col);
                let cell = self.cells[idx];
                let live_neighbors: u8 = self.live_neighbor_count(row, col);
                let next_cell = next_state(cell, live_neighbors);
                proof {
                    lemma_index_row_col(before.width, row as int, col as int);
                }
                next.set(idx, next_cell);
                col += 1;
            }
            assert(row * before.width + before.width == (row + 1) * before.width)
                by (nonlinear_arith);
            row += 1;
        }

        assert(row * before.width == before.width * before.height) by (nonlinear_arith)
            requires
                row == before.height,
        ;
        self.cells = next;
        assert(self@.cells =~= before.step().cells);
    }

    /// The position of `(row, column)` in the cell buffer.
    pub fn get_index(&self, row: u32, column: u32) -> (idx: usize)
        requires
            self.wf(),
            self@.in_bounds(row as int, column as int),
        ensures
            idx == self@.index(row as int, column as int),
            idx < self@.cells.len(),
    {
        proof {
            lemma_index_in_range(self@.width, self@.height, row as int, column as int);
            assert(0 <= row * self.width) by (nonlinear_arith);
            assert(self.cells@.len() == self.width * self.height);
            assert(self.cells@.len() == self.cells.len());
        }
        (row as usize) * (self.width as usize) + (column as usize)
    }

    /// The number of live cells among the eight toroidal neighbours of
    /// `(row, column)`.
    pub fn live_neighbor_count(&self, row: u32, column: u32) -> (count: u8)
        requires
            self.wf(),
            self@.in_bounds(row as int, column as int),
        ensures
            count == self@.live_neighbors(row as int, column as int),
            count <= 8,
    {
        let mut count: u8 = 0;

        let north: u32 = if row == 0 {
            self.height - 1
        } else {
            row - 1
        };

        let south: u32 = if row == self.height - 1 {
            0
        } else {
            row + 1
        };

        let west: u32 = if column == 0 {
            self.width - 1
        } else {
            column - 1
        };

        let east: u32 = if column == self.width - 1 {
            0
        } else {
            column + 1
        };

        proof {
            lemma_wrap(row as int, self.height as int);
            lemma_wrap(column as int, self.width as int);
        }

        let nw: usize = self.get_index(north, west);
        count += self.cells[nw].value();

        let n: usize = self.get_index(north, column);
        count += self.cells[n].value();

        let ne: usize = self.get_index(north, east);
        count += self.cells[ne].value();

        let w: usize = self.get_index(row, west);
        count += self.cells[w].value();

        let e: usize = self.get_index(row, east);
        count += self.cells[e].value();

        let sw: usize = self.get_index(south, west);
        count += self.cells[sw].value();

        let s: usize = self.get_index(south, column);
        count += self.cells[s].value();

        let se: usize = self.get_index(south, east);
        count += self.cells[se].value();

        count
    }

    /// Writes `cell` at `(row, column)`.
    fn put(&mut self, row: u32, column: u32, cell: Cell)
        requires
            old(self).wf(),
            old(self)@.in_bounds(row as int, column as int),
        ensures
            final(self).wf(),
            final(self)@ == old(self)@.with_cell(row as int, column as int, cell),
    {
        let idx: usize = self.get_index(row, column);
        self.cells.set(idx, cell);
    }

    /// Flips the cell at `(row, column)` and leaves every other cell as it
    /// is.
    pub fn toggle_cell(&mut self, row: u32, column: u32)
        requires
            old(self).wf(),
            old(self)@.in_bounds(row as int, column as int),
        ensures
            final(self).wf(),
            final(self)@ == old(self)@.toggled(row as int, column as int),
    {
        let idx: usize = self.get_index(row, column);
        let mut cell = self.cells[idx];
        cell.toggle();
        self.cells.set(idx, cell);
    }

    /// Stamps a glider centred at `(row, column)`, wrapping at the edges:
    /// all nine cells around and including the centre are overwritten.
    pub fn add_glider(&mut self, row: u32, column: u32)
        requires
            old(self).wf(),
            old(self)@.in_bounds(row as int, column as int),
        ensures
            final(self).wf(),
            final(self)@ == old(self)@.stamped(row as int, column as int),
    {
        let north: u32 = advance(row, self.height - 1, self.height);
        let south: u32 = advance(row, 1, self.height);
        let west: u32 = advance(column, self.width - 1, self.width);
        let east: u32 = advance(column, 1, self.width);

        proof {
            lemma_wrap(row as int, self.height as int);
            lemma_wrap(column as int, self.width as int);
            lemma_wrap_back(row as int, self.height as int);
            lemma_wrap_back(column as int, self.width as int);
        }

        self.put(north, west, Cell::Dead);
        self.put(north, column, Cell::Alive);
        self.put(north, east, Cell::Dead);

        self.put(row, west, Cell::Dead);
        self.put(row, column, Cell::Dead);
        self.put(row, east, Cell::Alive);

        self.put(south, west, Cell::Alive);
        self.put(south, column, Cell::Alive);
        self.put(south, east, Cell::Alive);
    }
}

} // verus!
