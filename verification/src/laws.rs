//! What holds of the model for every grid: the wrap at the edges, the range
//! of the neighbour count, and how a step, a toggle and a glider stamp change
//! the cells.

use vstd::prelude::*;
use crate::cell::Cell;
use crate::seed::seed_grid;
use crate::grid::{
    glider_cell,
    lemma_index_in_range,
    lemma_index_injective,
    lemma_index_row_col,
    lemma_wrap,
    rule,
    wrap,
    Grid,
};

verus! {

/// On a ring, the position before the first is the last, and the position
/// after the last is the first.
pub proof fn wrap_at_edges(extent: int)
    requires
        extent > 0,
    ensures
        wrap(0, -1, extent) == extent - 1,
        wrap(extent - 1, 1, extent) == 0,
{
    lemma_wrap(0, extent);
    lemma_wrap(extent - 1, extent);
}

/// The grid is a torus: the northern neighbour of a cell in the first row is
/// the cell of the same column in the last row, the southern neighbour of a
/// cell in the last row lies in the first row, and likewise for the western
/// and eastern neighbours at the first and last column.
pub proof fn neighbors_wrap_at_edges(grid: Grid, row: int, col: int)
    requires
        grid.wf(),
        grid.in_bounds(row, col),
    ensures
        grid.toward(0, col, -1, 0) == grid.at(grid.height - 1, col),
        grid.toward(grid.height - 1, col, 1, 0) == grid.at(0, col),
        grid.toward(row, 0, 0, -1) == grid.at(row, grid.width - 1),
        grid.toward(row, grid.width - 1, 0, 1) == grid.at(row, 0),
{
    lemma_wrap(0, grid.height as int);
    lemma_wrap(grid.height - 1, grid.height as int);
    lemma_wrap(0, grid.width as int);
    lemma_wrap(grid.width - 1, grid.width as int);
    lemma_wrap(row, grid.height as int);
    lemma_wrap(col, grid.width as int);
}

/// Every neighbour of a cell of the grid is a cell of the grid.
pub proof fn neighbors_in_bounds(grid: Grid, row: int, col: int, delta_row: int, delta_col: int)
    requires
        grid.wf(),
        grid.in_bounds(row, col),
        -1 <= delta_row <= 1,
        -1 <= delta_col <= 1,
    ensures
        grid.in_bounds(
            wrap(row, delta_row, grid.height as int),
            wrap(col, delta_col, grid.width as int),
        ),
{
    lemma_wrap(row, grid.height as int);
    lemma_wrap(col, grid.width as int);
}

/// A cell never has more than eight live neighbours, whatever the grid holds.
pub proof fn live_neighbors_at_most_eight(grid: Grid, row: int, col: int)
    ensures
        grid.live_neighbors(row, col) <= 8,
{
}

/// Replacing one cell changes that cell and no other, and keeps the grid
/// well formed.
pub proof fn with_cell_changes_one(
    grid: Grid,
    row: int,
    col: int,
    cell: Cell,
    other_row: int,
    other_col: int,
)
    requires
        grid.wf(),
        grid.in_bounds(row, col),
        grid.in_bounds(other_row, other_col),
    ensures
        grid.with_cell(row, col, cell).wf(),
        grid.with_cell(row, col, cell).at(other_row, other_col) == if other_row == row && other_col
            == col {
            cell
        } else {
            grid.at(other_row, other_col)
        },
{
    lemma_index_in_range(grid.width, grid.height, row, col);
    lemma_index_in_range(grid.width, grid.height, other_row, other_col);
    if grid.index(row, col) == grid.index(other_row, other_col) {
        lemma_index_injective(grid.width, row, col, other_row, other_col);
    }
}

/// Equal grids have equal next generations: a step depends on nothing but
/// the grid it starts from.
pub proof fn step_is_deterministic(first: Grid, second: Grid)
    requires
        first.width == second.width,
        first.height == second.height,
        first.cells =~= second.cells,
    ensures
        first.step() == second.step(),
{
}

/// A step keeps the extent of the grid, and every cell of the next
/// generation is the rule applied to that cell and its live neighbours in
/// the generation before.
pub proof fn step_applies_rule_everywhere(grid: Grid, row: int, col: int)
    requires
        grid.wf(),
        grid.in_bounds(row, col),
    ensures
        grid.step().wf(),
        grid.step().width == grid.width,
        grid.step().height == grid.height,
        grid.step().at(row, col) == rule(grid.at(row, col), grid.live_neighbors(row, col)),
{
    lemma_index_in_range(grid.width, grid.height, row, col);
    lemma_index_row_col(grid.width, row, col);
}

/// A toggle flips the cell it names, leaves every other cell as it was and
/// keeps the extent of the grid.
pub proof fn toggle_flips_one(grid: Grid, row: int, col: int)
    requires
        grid.wf(),
        grid.in_bounds(row, col),
    ensures
        grid.toggled(row, col).wf(),
        grid.toggled(row, col).width == grid.width,
        grid.toggled(row, col).height == grid.height,
        grid.toggled(row, col).at(row, col) == grid.at(row, col).flipped(),
        forall|r: int, c: int|
            grid.in_bounds(r, c) && !(r == row && c == col) ==> #[trigger] grid.toggled(
                row,
                col,
            ).at(r, c) == grid.at(r, c),
{
    let flipped = grid.at(row, col).flipped();
    with_cell_changes_one(grid, row, col, flipped, row, col);
    assert forall|r: int, c: int| grid.in_bounds(r, c) && !(r == row && c == col) implies #[trigger]
        grid.toggled(row, col).at(r, c) == grid.at(r, c) by {
        with_cell_changes_one(grid, row, col, flipped, r, c);
    }
}

/// Two toggles of the same cell give back the grid they started from.
pub proof fn toggle_twice_is_identity(grid: Grid, row: int, col: int)
    requires
        grid.wf(),
        grid.in_bounds(row, col),
    ensures
        grid.toggled(row, col).toggled(row, col) == grid,
{
    lemma_index_in_range(grid.width, grid.height, row, col);
    assert(grid.toggled(row, col).toggled(row, col).cells =~= grid.cells);
}

/// Writing one cell of a glider changes the cell it names and no other.
proof fn stamp_cell_changes_one(
    grid: Grid,
    row: int,
    col: int,
    delta_row: int,
    delta_col: int,
    target_row: int,
    target_col: int,
)
    requires
        grid.wf(),
        grid.in_bounds(row, col),
        grid.in_bounds(target_row, target_col),
        -1 <= delta_row <= 1,
        -1 <= delta_col <= 1,
    ensures
        grid.stamp_cell(row, col, delta_row, delta_col).wf(),
        grid.stamp_cell(row, col, delta_row, delta_col).width == grid.width,
        grid.stamp_cell(row, col, delta_row, delta_col).height == grid.height,
        grid.stamp_cell(row, col, delta_row, delta_col).at(target_row, target_col) == if target_row
            == wrap(row, delta_row, grid.height as int) && target_col == wrap(
            col,
            delta_col,
            grid.width as int,
        ) {
            glider_cell(delta_row, delta_col)
        } else {
            grid.at(target_row, target_col)
        },
{
    neighbors_in_bounds(grid, row, col, delta_row, delta_col);
    with_cell_changes_one(
        grid,
        wrap(row, delta_row, grid.height as int),
        wrap(col, delta_col, grid.width as int),
        glider_cell(delta_row, delta_col),
        target_row,
        target_col,
    );
}

/// The seed grid has 64 rows and 64 columns, and one cell for each
/// coordinate.
pub proof fn seed_grid_extent()
    ensures
        seed_grid().wf(),
        seed_grid().width == 64,
        seed_grid().height == 64,
        seed_grid().cells.len() == 64 * 64,
{
}

/// A step, a toggle and a glider stamp keep the extent of the grid and
/// leave it well formed, so that it always holds one cell for each
/// coordinate.
pub proof fn operations_keep_extent(grid: Grid, row: int, col: int)
    requires
        grid.wf(),
        grid.in_bounds(row, col),
    ensures
        grid.step().wf(),
        grid.step().width == grid.width && grid.step().height == grid.height,
        grid.toggled(row, col).wf(),
        grid.toggled(row, col).width == grid.width && grid.toggled(row, col).height == grid.height,
        grid.stamped(row, col).wf(),
        grid.stamped(row, col).width == grid.width && grid.stamped(row, col).height == grid.height,
{
    lemma_index_in_range(grid.width, grid.height, row, col);
    let north = grid.stamp_row(row, col, -1);
    let middle = north.stamp_row(row, col, 0);
    stamp_row_changes_three(grid, row, col, -1, row, col);
    stamp_row_changes_three(north, row, col, 0, row, col);
    stamp_row_changes_three(middle, row, col, 1, row, col);
}

/// Writing one row of a glider changes the three cells it names and no
/// other; where two of them coincide, the eastern write stands.
proof fn stamp_row_changes_three(
    grid: Grid,
    row: int,
    col: int,
    delta_row: int,
    target_row: int,
    target_col: int,
)
    requires
        grid.wf(),
        grid.in_bounds(row, col),
        grid.in_bounds(target_row, target_col),
        -1 <= delta_row <= 1,
    ensures
        grid.stamp_row(row, col, delta_row).wf(),
        grid.stamp_row(row, col, delta_row).width == grid.width,
        grid.stamp_row(row, col, delta_row).height == grid.height,
        grid.stamp_row(row, col, delta_row).at(target_row, target_col) == if target_row != wrap(
            row,
            delta_row,
            grid.height as int,
        ) {
            grid.at(target_row, target_col)
        } else if target_col == wrap(col, 1, grid.width as int) {
            glider_cell(delta_row, 1)
        } else if target_col == wrap(col, 0, grid.width as int) {
            glider_cell(delta_row, 0)
        } else if target_col == wrap(col, -1, grid.width as int) {
            glider_cell(delta_row, -1)
        } else {
            grid.at(target_row, target_col)
        },
{
    let west = grid.stamp_cell(row, col, delta_row, -1);
    stamp_cell_changes_one(grid, row, col, delta_row, -1, target_row, target_col);
    let centre = west.stamp_cell(row, col, delta_row, 0);
    stamp_cell_changes_one(west, row, col, delta_row, 0, target_row, target_col);
    stamp_cell_changes_one(centre, row, col, delta_row, 1, target_row, target_col);
}

/// On a grid of at least three rows and three columns, a glider stamp
/// leaves the glider in the three by three patch around its centre and
/// every cell outside the patch as it was; the extent of the grid stays.
pub proof fn stamp_writes_glider(grid: Grid, row: int, col: int)
    requires
        grid.wf(),
        grid.width >= 3,
        grid.height >= 3,
        grid.in_bounds(row, col),
    ensures
        grid.stamped(row, col).wf(),
        grid.stamped(row, col).width == grid.width,
        grid.stamped(row, col).height == grid.height,
        forall|r: int, c: int|
            grid.in_bounds(r, c) ==> #[trigger] grid.stamped(row, col).at(r, c)
                == grid.stamp_result(row, col, r, c),
{
    lemma_wrap(row, grid.height as int);
    lemma_wrap(col, grid.width as int);
    let north = grid.stamp_row(row, col, -1);
    let middle = north.stamp_row(row, col, 0);
    stamp_row_changes_three(grid, row, col, -1, row, col);
    stamp_row_changes_three(north, row, col, 0, row, col);
    stamp_row_changes_three(middle, row, col, 1, row, col);
    assert forall|r: int, c: int| grid.in_bounds(r, c) implies #[trigger] grid.stamped(row, col).at(
        r,
        c,
    ) == grid.stamp_result(row, col, r, c) by {
        stamp_row_changes_three(grid, row, col, -1, r, c);
        stamp_row_changes_three(north, row, col, 0, r, c);
        stamp_row_changes_three(middle, row, col, 1, r, c);
    }
}

/// On an all-dead grid of at least three rows and three columns, a
/// glider stamp leaves exactly five live cells: the one north of the centre,
/// the one east of it, and the three of the row south of it.
pub proof fn stamp_on_dead_grid(grid: Grid, row: int, col: int)
    requires
        grid.wf(),
        grid.width >= 3,
        grid.height >= 3,
        grid.in_bounds(row, col),
        grid.all_dead(),
    ensures
        grid.stamped(row, col).live_cells() == set![
            (wrap(row, -1, grid.height as int), col),
            (row, wrap(col, 1, grid.width as int)),
            (wrap(row, 1, grid.height as int), wrap(col, -1, grid.width as int)),
            (wrap(row, 1, grid.height as int), col),
            (wrap(row, 1, grid.height as int), wrap(col, 1, grid.width as int)),
        ],
        grid.stamped(row, col).live_cells().len() == 5,
{
    broadcast use vstd::set::group_set_axioms;

    let north = wrap(row, -1, grid.height as int);
    let south = wrap(row, 1, grid.height as int);
    let west = wrap(col, -1, grid.width as int);
    let east = wrap(col, 1, grid.width as int);
    let live = set![(north, col), (row, east), (south, west), (south, col), (south, east)];
    let after = grid.stamped(row, col);
    lemma_wrap(row, grid.height as int);
    lemma_wrap(col, grid.width as int);
    stamp_writes_glider(grid, row, col);
    assert forall|p: (int, int)| after.live_cells().contains(p) <==> live.contains(p) by {
        if after.in_bounds(p.0, p.1) {
            lemma_index_in_range(grid.width, grid.height, p.0, p.1);
            assert(after.at(p.0, p.1) == grid.stamp_result(row, col, p.0, p.1));
        }
    }
    assert(after.live_cells() =~= live);
}

} // verus!
