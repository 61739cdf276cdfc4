//! The grid of cells on which the game is played.

use crate::direction::{pos_view, CellPos};
use vstd::prelude::*;

verus! {

/// What one cell of the grid holds: `EMPTY`, `SNAKE` or `FOOD`.
pub type Cell = u8;

/// The grid, row by row.
pub type Grid = Vec<Vec<Cell>>;

pub const EMPTY: Cell = 0;

pub const SNAKE: Cell = 1;

pub const FOOD: Cell = 2;

/// The rows of a grid, each as the sequence of its cells.
pub open spec fn grid_view(grid: &Grid) -> Seq<Seq<Cell>> {
    Seq::new(grid@.len(), |r: int| grid@[r]@)
}

/// A grid has at least one row and one column, and all its rows are equally
/// long.
pub open spec fn well_shaped(g: Seq<Seq<Cell>>) -> bool {
    &&& g.len() > 0
    &&& g[0].len() > 0
    &&& forall|r: int| 0 <= r < g.len() ==> #[trigger] g[r].len() == g[0].len()
}

/// Whether a value is one of the three that a cell can hold.
pub open spec fn is_cell(value: Cell) -> bool {
    value == EMPTY || value == SNAKE || value == FOOD
}

/// Every cell of the grid holds one of the three values of a cell.
pub open spec fn cells_valid(g: Seq<Seq<Cell>>) -> bool {
    forall|r: int, c: int| 0 <= r < g.len() && 0 <= c < g[r].len() ==> is_cell(#[trigger] g[r][c])
}

/// Whether a position lies on the grid.
pub open spec fn in_grid(g: Seq<Seq<Cell>>, pos: (int, int)) -> bool {
    0 <= pos.0 < g.len() && 0 <= pos.1 < g[0].len()
}

/// The cell at a position.
pub open spec fn cell_at(g: Seq<Seq<Cell>>, pos: (int, int)) -> Cell {
    g[pos.0][pos.1]
}

/// The grid with one cell replaced.
pub open spec fn set_cell(g: Seq<Seq<Cell>>, pos: (int, int), value: Cell) -> Seq<Seq<Cell>> {
    g.update(pos.0, g[pos.0].update(pos.1, value))
}

/// A grid of the given size with every cell empty.
pub open spec fn empty_grid(nrows: nat, ncols: nat) -> Seq<Seq<Cell>> {
    Seq::new(nrows, |r: int| Seq::new(ncols, |c: int| EMPTY))
}

/// How many cells of a row hold `value`.
pub open spec fn count_in_row(row: Seq<Cell>, value: Cell) -> nat
    decreases row.len(),
{
    if row.len() == 0 {
        0
    } else {
        count_in_row(row.drop_last(), value) + if row.last() == value {
            1nat
        } else {
            0nat
        }
    }
}

/// How many cells of the grid hold `value`.
pub open spec fn count_cells(g: Seq<Seq<Cell>>, value: Cell) -> nat
    decreases g.len(),
{
    if g.len() == 0 {
        0
    } else {
        count_cells(g.drop_last(), value) + count_in_row(g.last(), value)
    }
}

/// One if the two values are equal, zero if not.
pub open spec fn one_if(a: Cell, b: Cell) -> int {
    if a == b {
        1
    } else {
        0
    }
}

/// Replacing one cell of a row takes the old cell out of the count and puts
/// the new one in.
pub proof fn lemma_count_in_row_update(row: Seq<Cell>, c: int, new: Cell, value: Cell)
    requires
        0 <= c < row.len(),
    ensures
        count_in_row(row.update(c, new), value) == count_in_row(row, value) - one_if(
            row[c],
            value,
        ) + one_if(new, value),
    decreases row.len(),
{
    let updated = row.update(c, new);
    if c == row.len() - 1 {
        assert(updated.drop_last() == row.drop_last());
    } else {
        assert(updated.drop_last() == row.drop_last().update(c, new));
        lemma_count_in_row_update(row.drop_last(), c, new, value);
    }
}

/// Replacing one cell of a grid takes the old cell out of the count and puts
/// the new one in.
pub proof fn lemma_count_cells_set(g: Seq<Seq<Cell>>, pos: (int, int), new: Cell, value: Cell)
    requires
        0 <= pos.0 < g.len(),
        0 <= pos.1 < g[pos.0].len(),
    ensures
        count_cells(set_cell(g, pos, new), value) == count_cells(g, value) - one_if(
            cell_at(g, pos),
            value,
        ) + one_if(new, value),
    decreases g.len(),
{
    let updated = set_cell(g, pos, new);
    if pos.0 == g.len() - 1 {
        assert(updated.drop_last() == g.drop_last());
        lemma_count_in_row_update(g.last(), pos.1, new, value);
    } else {
        assert(updated.drop_last() == set_cell(g.drop_last(), pos, new));
        lemma_count_cells_set(g.drop_last(), pos, new, value);
    }
}

/// Replacing a cell keeps the shape of the grid, and keeps every cell valid
/// where the new value is one.
pub proof fn lemma_set_cell_keeps_shape(g: Seq<Seq<Cell>>, pos: (int, int), new: Cell)
    requires
        well_shaped(g),
        in_grid(g, pos),
    ensures
        well_shaped(set_cell(g, pos, new)),
        set_cell(g, pos, new).len() == g.len(),
        set_cell(g, pos, new)[0].len() == g[0].len(),
        forall|p: (int, int)| in_grid(set_cell(g, pos, new), p) <==> in_grid(g, p),
        cells_valid(g) && is_cell(new) ==> cells_valid(set_cell(g, pos, new)),
{
}

/// The number of rows and the number of columns of a grid.
pub fn grid_size(grid: &Grid) -> (size: (usize, usize))
    requires
        grid@.len() > 0,
    ensures
        size.0 == grid_view(grid).len(),
        size.1 == grid_view(grid)[0].len(),
{
    (grid.len(), grid[0].len())
}

/// Reads the cell at a position of the grid.
pub fn get_cell(grid: &Grid, pos: CellPos) -> (value: Cell)
    requires
        well_shaped(grid_view(grid)),
        in_grid(grid_view(grid), pos_view(pos)),
    ensures
        value == cell_at(grid_view(grid), pos_view(pos)),
{
    assert(grid_view(grid)[pos.0 as int].len() == grid_view(grid)[0].len());
    grid[pos.0][pos.1]
}

/// Writes a value into the cell at a position of the grid.
pub fn put_cell(grid: &mut Grid, pos: CellPos, value: Cell)
    requires
        well_shaped(grid_view(old(grid))),
        in_grid(grid_view(old(grid)), pos_view(pos)),
    ensures
        grid_view(final(grid)) == set_cell(grid_view(old(grid)), pos_view(pos), value),
{
    assert(grid_view(grid)[pos.0 as int].len() == grid_view(grid)[0].len());
    grid[pos.0][pos.1] = value;
}

/// Makes a row of empty cells.
pub fn empty_row(ncols: usize) -> (row: Vec<Cell>)
    ensures
        row@ == Seq::new(ncols as nat, |c: int| EMPTY),
{
    let mut row: Vec<Cell> = Vec::new();
    let mut c: usize = 0;
    while c < ncols
        invariant
            c <= ncols,
            row@ == Seq::new(c as nat, |c: int| EMPTY),
        decreases ncols - c,
    {
        row.push(EMPTY);
        c = c + 1;
    }
    row
}

/// Makes a grid of the given size with every cell empty.
pub fn new_grid(nrows: usize, ncols: usize) -> (grid: Grid)
    ensures
        grid_view(&grid) == empty_grid(nrows as nat, ncols as nat),
{
    let mut grid: Grid = Vec::new();
    let mut r: usize = 0;
    while r < nrows
        invariant
            r <= nrows,
            grid@.len() == r,
            grid_view(&grid) == empty_grid(r as nat, ncols as nat),
        decreases nrows - r,
    {
        let ghost before = grid_view(&grid);
        grid.push(empty_row(ncols));
        r = r + 1;
        assert forall|i: int| 0 <= i < r implies #[trigger] grid_view(&grid)[i] == empty_grid(
            r as nat,
            ncols as nat,
        )[i] by {
            if i < r - 1 {
                assert(grid_view(&grid)[i] == before[i]);
            }
        }
    }
    grid
}

} // verus!
