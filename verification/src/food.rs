//! The placement of food on the grid.

use crate::direction::{pos_view, CellPos};
use crate::grid::{
    cell_at, cells_valid, count_cells, get_cell, grid_size, grid_view, in_grid,
    lemma_count_cells_set, lemma_set_cell_keeps_shape, put_cell, set_cell, well_shaped, Cell,
    Grid, EMPTY, FOOD, SNAKE,
};
use rand::rngs::ThreadRng;
use rand::Rng;
use vstd::prelude::*;

verus! {

/// The random number generator of the `rand` crate that belongs to the
/// running thread. Nothing is known of what it holds.
#[verifier::external_type_specification]
#[verifier::external_body]
pub struct ExThreadRng(ThreadRng);

/// Calls `rand::thread_rng`, which hands out the generator of the running
/// thread. Nothing is claimed of it.
#[verifier::external_body]
fn thread_rng() -> ThreadRng {
    rand::thread_rng()
}

/// Calls `Rng::gen_range` on the range from zero up to, and without,
/// `bound`. The range must not be empty, or the call panics. Claimed: the
/// number drawn lies in the range. Which one it is depends on chance.
#[verifier::external_body]
fn gen_index(rng: &mut ThreadRng, bound: usize) -> (index: usize)
    requires
        bound > 0,
    ensures
        index < bound,
{
    rng.gen_range(0..bound)
}

/// The grid after an attempt to place food at a position: an empty cell
/// takes the food, any other cell keeps what it holds.
pub open spec fn with_food_at(g: Seq<Seq<Cell>>, pos: (int, int)) -> Seq<Seq<Cell>> {
    if cell_at(g, pos) == EMPTY {
        set_cell(g, pos, FOOD)
    } else {
        g
    }
}

/// Between two grids of one shape, the only change is that some empty cells
/// came to hold food.
pub open spec fn only_food_added(before: Seq<Seq<Cell>>, after: Seq<Seq<Cell>>) -> bool {
    &&& after.len() == before.len()
    &&& forall|r: int| 0 <= r < before.len() ==> (#[trigger] after[r]).len() == before[r].len()
    &&& forall|r: int, c: int|
        0 <= r < before.len() && 0 <= c < before[r].len() ==> #[trigger] after[r][c]
            == before[r][c] || (before[r][c] == EMPTY && after[r][c] == FOOD)
}

/// An attempt to place food adds at most one cell of food, takes no cell
/// from the snake, and changes nothing but an empty cell.
pub proof fn lemma_with_food_at(g: Seq<Seq<Cell>>, pos: (int, int))
    requires
        well_shaped(g),
        in_grid(g, pos),
    ensures
        well_shaped(with_food_at(g, pos)),
        with_food_at(g, pos).len() == g.len(),
        with_food_at(g, pos)[0].len() == g[0].len(),
        cells_valid(g) ==> cells_valid(with_food_at(g, pos)),
        only_food_added(g, with_food_at(g, pos)),
        count_cells(with_food_at(g, pos), FOOD) == count_cells(g, FOOD) + if cell_at(g, pos)
            == EMPTY {
            1int
        } else {
            0int
        },
        count_cells(with_food_at(g, pos), SNAKE) == count_cells(g, SNAKE),
{
    if cell_at(g, pos) == EMPTY {
        lemma_set_cell_keeps_shape(g, pos, FOOD);
        lemma_count_cells_set(g, pos, FOOD, FOOD);
        lemma_count_cells_set(g, pos, FOOD, SNAKE);
    }
}

/// The grid after attempts to place food at the positions drawn, one after
/// the other.
pub open spec fn scattered(g: Seq<Seq<Cell>>, draws: Seq<(int, int)>) -> Seq<Seq<Cell>>
    decreases draws.len(),
{
    if draws.len() == 0 {
        g
    } else {
        with_food_at(scattered(g, draws.drop_last()), draws.last())
    }
}

/// Whatever positions are drawn, scattering food turns no cell of the snake
/// or of food into anything else, changes nothing but empty cells, and adds
/// at most one cell of food for each draw.
pub proof fn scattering_adds_only_food(g: Seq<Seq<Cell>>, draws: Seq<(int, int)>)
    requires
        well_shaped(g),
        forall|i: int| 0 <= i < draws.len() ==> in_grid(g, #[trigger] draws[i]),
    ensures
        well_shaped(scattered(g, draws)),
        scattered(g, draws).len() == g.len(),
        scattered(g, draws)[0].len() == g[0].len(),
        cells_valid(g) ==> cells_valid(scattered(g, draws)),
        only_food_added(g, scattered(g, draws)),
        count_cells(scattered(g, draws), FOOD) <= count_cells(g, FOOD) + draws.len(),
        count_cells(scattered(g, draws), SNAKE) == count_cells(g, SNAKE),
    decreases draws.len(),
{
    if draws.len() > 0 {
        scattering_adds_only_food(g, draws.drop_last());
        lemma_with_food_at(scattered(g, draws.drop_last()), draws.last());
    }
}

/// Places food at a position if the cell there is empty, and leaves the
/// grid as it is if the cell holds the snake or food.
pub fn place_food(grid: &mut Grid, pos: CellPos)
    requires
        well_shaped(grid_view(old(grid))),
        in_grid(grid_view(old(grid)), pos_view(pos)),
    ensures
        grid_view(final(grid)) == with_food_at(grid_view(old(grid)), pos_view(pos)),
{
    if get_cell(grid, pos) == EMPTY {
        put_cell(grid, pos, FOOD);
    }
}

/// Scatters food over the grid: `max_amount` times it draws a row and a
/// column at random and places food there if the cell is empty. A draw that
/// hits the snake or food is lost, so fewer than `max_amount` cells may
/// come to hold food. Which positions are drawn is left to chance; the grid
/// is the one that `max_amount` draws on it give. So no cell of the snake
/// or of food changes, and at most `max_amount` cells of food are added.
pub fn add_food(grid: &mut Grid, max_amount: usize)
    requires
        well_shaped(grid_view(old(grid))),
    ensures
        exists|draws: Seq<(int, int)>|
            {
                &&& draws.len() == max_amount
                &&& forall|i: int|
                    0 <= i < draws.len() ==> in_grid(grid_view(old(grid)), #[trigger] draws[i])
                &&& grid_view(final(grid)) == #[trigger] scattered(grid_view(old(grid)), draws)
            },
        well_shaped(grid_view(final(grid))),
        cells_valid(grid_view(old(grid))) ==> cells_valid(grid_view(final(grid))),
        only_food_added(grid_view(old(grid)), grid_view(final(grid))),
        count_cells(grid_view(final(grid)), FOOD) <= count_cells(grid_view(old(grid)), FOOD)
            + max_amount,
        count_cells(grid_view(final(grid)), SNAKE) == count_cells(grid_view(old(grid)), SNAKE),
{
    let (nrows, ncols) = grid_size(grid);
    let mut rng = thread_rng();
    let ghost mut draws: Seq<(int, int)> = Seq::empty();
    let mut drawn: usize = 0;
    while drawn < max_amount
        invariant
            drawn <= max_amount,
            well_shaped(grid_view(old(grid))),
            nrows == grid_view(old(grid)).len(),
            ncols == grid_view(old(grid))[0].len(),
            draws.len() == drawn,
            forall|i: int| 0 <= i < draws.len() ==> in_grid(grid_view(old(grid)), #[trigger] draws[i]),
            grid_view(grid) == scattered(grid_view(old(grid)), draws),
        decreases max_amount - drawn,
    {
        let food_x = gen_index(&mut rng, nrows);
        let food_y = gen_index(&mut rng, ncols);
        proof {
            scattering_adds_only_food(grid_view(old(grid)), draws);
        }
        place_food(grid, (food_x, food_y));
        proof {
            let longer = draws.push((food_x as int, food_y as int));
            assert(longer.drop_last() == draws);
            draws = longer;
        }
        drawn = drawn + 1;
    }
    proof {
        scattering_adds_only_food(grid_view(old(grid)), draws);
    }
}

} // verus!
