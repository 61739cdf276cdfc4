//! What holds of the rule that moves the snake, proved over the model of
//! the state.

use crate::direction::{next_position, SnakeDirection};
use crate::game::{
    body_from, initial_model, lemma_body_len, lemma_head_move_keeps_wf,
    lemma_tail_move_keeps_wf, GameModel,
};
use crate::grid::{
    cell_at, count_cells, count_in_row, in_grid, lemma_count_cells_set,
    lemma_set_cell_keeps_shape, set_cell, well_shaped, Cell, EMPTY, FOOD, SNAKE,
};
use vstd::prelude::*;

verus! {

/// Whether the head stands at the edge of the grid that lies in a direction.
pub open spec fn faces_edge(s: GameModel, direction: SnakeDirection) -> bool {
    match direction {
        SnakeDirection::Up => s.head.0 == 0,
        SnakeDirection::Down => s.head.0 == s.grid.len() - 1,
        SnakeDirection::Left => s.head.1 == 0,
        SnakeDirection::Right => s.head.1 == s.grid[0].len() - 1,
    }
}

/// A head at an edge of the grid cannot step over that edge: the tick is
/// refused and the state, the grid with it, stays as it was. A step is
/// refused in no other case.
pub proof fn edge_move_is_refused(s: GameModel, direction: SnakeDirection)
    requires
        s.wf(),
    ensures
        faces_edge(s, direction) <==> !s.can_advance(direction),
        faces_edge(s, direction) ==> s.advance(direction) == s,
{
    lemma_body_len(s.tail, s.head_directions);
}

/// A tick onto food lets the snake grow: one more cell of the grid shows
/// the snake, the tail stays where it is and its cell keeps what it held,
/// and the body gains the new head.
pub proof fn eating_grows_the_snake(s: GameModel, direction: SnakeDirection)
    requires
        s.wf(),
        s.can_advance(direction),
        s.finds_food(direction),
    ensures
        count_cells(s.advance(direction).grid, SNAKE) == count_cells(s.grid, SNAKE) + 1,
        count_cells(s.advance(direction).grid, FOOD) == count_cells(s.grid, FOOD) - 1,
        s.advance(direction).tail == s.tail,
        cell_at(s.grid, s.tail) == SNAKE ==> cell_at(s.advance(direction).grid, s.tail) == SNAKE,
        s.advance(direction).body() == s.body().push(next_position(s.head, direction)),
        s.advance(direction).head_directions.len() == s.head_directions.len() + 1,
{
    let pos = next_position(s.head, direction);
    lemma_head_move_keeps_wf(s, direction);
    lemma_body_len(s.tail, s.head_directions);
    lemma_count_cells_set(s.grid, pos, SNAKE, SNAKE);
    lemma_count_cells_set(s.grid, pos, SNAKE, FOOD);
}

/// A tick onto an empty cell moves the snake without growth: the cell that
/// the tail leaves becomes empty, the body loses its tail and gains the new
/// head, and the queue keeps its length. As many cells as before show the
/// snake exactly when the tail's cell showed it, or the head steps onto the
/// very cell that the tail leaves.
pub proof fn moving_keeps_the_length(s: GameModel, direction: SnakeDirection)
    requires
        s.wf(),
        s.can_advance(direction),
        cell_at(s.grid, next_position(s.head, direction)) == EMPTY,
    ensures
        cell_at(s.advance(direction).grid, s.tail) == EMPTY,
        count_cells(s.advance(direction).grid, SNAKE) == count_cells(s.grid, SNAKE) <==> (cell_at(
            s.grid,
            s.tail,
        ) == SNAKE || s.tail == next_position(s.head, direction)),
        s.advance(direction).body() == s.body().drop_first().push(
            next_position(s.head, direction),
        ),
        s.advance(direction).head_directions.len() == s.head_directions.len(),
{
    let pos = next_position(s.head, direction);
    let moved = s.with_head_at(pos, direction);
    lemma_head_move_keeps_wf(s, direction);
    lemma_tail_move_keeps_wf(moved);
    lemma_body_len(s.tail, s.head_directions);
    lemma_set_cell_keeps_shape(s.grid, pos, SNAKE);
    lemma_count_cells_set(s.grid, pos, SNAKE, SNAKE);
    lemma_count_cells_set(moved.grid, s.tail, EMPTY, SNAKE);
}

/// The state after the ticks of a sequence of directions, one after the
/// other.
pub open spec fn after_ticks(s: GameModel, directions: Seq<SnakeDirection>) -> GameModel
    decreases directions.len(),
{
    if directions.len() == 0 {
        s
    } else {
        after_ticks(s, directions.drop_last()).advance(directions.last())
    }
}

/// Every tick of the sequence stays on the grid and finds no food.
pub open spec fn moves_without_food(s: GameModel, directions: Seq<SnakeDirection>) -> bool
    decreases directions.len(),
{
    directions.len() == 0 || {
        let before = after_ticks(s, directions.drop_last());
        &&& moves_without_food(s, directions.drop_last())
        &&& before.can_advance(directions.last())
        &&& !before.finds_food(directions.last())
    }
}

/// The cells that a head visits when it starts at `head` and takes the
/// directions in turn: one cell for each direction.
pub open spec fn head_path(head: (int, int), directions: Seq<SnakeDirection>) -> Seq<(int, int)>
    decreases directions.len(),
{
    if directions.len() == 0 {
        Seq::empty()
    } else {
        let earlier = head_path(head, directions.drop_last());
        let from = if earlier.len() == 0 {
            head
        } else {
            earlier.last()
        };
        earlier.push(next_position(from, directions.last()))
    }
}

/// The cells of the body followed by the cells that the head visits during
/// the ticks: the track that the head lays and the tail follows.
pub open spec fn track(s: GameModel, directions: Seq<SnakeDirection>) -> Seq<(int, int)> {
    s.body() + head_path(s.head, directions)
}

/// The head visits one cell for each direction.
pub proof fn lemma_head_path_len(head: (int, int), directions: Seq<SnakeDirection>)
    ensures
        head_path(head, directions).len() == directions.len(),
    decreases directions.len(),
{
    if directions.len() > 0 {
        lemma_head_path_len(head, directions.drop_last());
    }
}

/// After ticks that stay on the grid and find no food, the state is well
/// formed and the body is the window of the track that starts as many cells
/// in as there were ticks.
pub proof fn lemma_body_is_window_of_track(s: GameModel, directions: Seq<SnakeDirection>)
    requires
        s.wf(),
        moves_without_food(s, directions),
    ensures
        after_ticks(s, directions).wf(),
        after_ticks(s, directions).head_directions.len() == s.head_directions.len(),
        after_ticks(s, directions).body() == track(s, directions).subrange(
            directions.len() as int,
            (directions.len() + s.body().len()) as int,
        ),
    decreases directions.len(),
{
    lemma_body_len(s.tail, s.head_directions);
    lemma_head_path_len(s.head, directions);
    if directions.len() > 0 {
        let shorter = directions.drop_last();
        let direction = directions.last();
        let before = after_ticks(s, shorter);
        let pos = next_position(before.head, direction);
        lemma_body_is_window_of_track(s, shorter);
        lemma_head_path_len(s.head, shorter);
        lemma_body_len(before.tail, before.head_directions);
        lemma_head_move_keeps_wf(before, direction);
        lemma_tail_move_keeps_wf(before.with_head_at(pos, direction));
    }
}

/// The tail follows the head. While the snake moves without eating, after
/// each tick the tail lies on the cell of the track that is as many cells in
/// as there were ticks, and the head on the cell that is further on by the
/// length of the queue: the tail takes the places of the head, later by as
/// many ticks as the queue is long.
pub proof fn tail_follows_head(s: GameModel, directions: Seq<SnakeDirection>, ticks: int)
    requires
        s.wf(),
        moves_without_food(s, directions),
        0 <= ticks <= directions.len(),
    ensures
        after_ticks(s, directions.take(ticks)).tail == track(s, directions)[ticks],
        after_ticks(s, directions.take(ticks)).head == track(s, directions)[ticks
            + s.head_directions.len()],
        ticks <= s.head_directions.len() ==> after_ticks(s, directions.take(ticks)).tail
            == s.body()[ticks],
        ticks >= s.head_directions.len() ==> after_ticks(s, directions.take(ticks)).tail
            == after_ticks(s, directions.take(ticks - s.head_directions.len())).head,
{
    lemma_track_at(s, directions, ticks);
    if ticks >= s.head_directions.len() {
        lemma_track_at(s, directions, ticks - s.head_directions.len());
    }
    lemma_body_len(s.tail, s.head_directions);
}

/// A start of a sequence of ticks that stay on the grid and find no food
/// does so too, and visits the same cells.
pub proof fn lemma_take_moves_without_food(
    s: GameModel,
    directions: Seq<SnakeDirection>,
    ticks: int,
)
    requires
        moves_without_food(s, directions),
        0 <= ticks <= directions.len(),
    ensures
        moves_without_food(s, directions.take(ticks)),
        head_path(s.head, directions.take(ticks)) == head_path(s.head, directions).take(ticks),
    decreases directions.len(),
{
    if ticks == directions.len() {
        assert(directions.take(ticks) == directions);
        lemma_head_path_len(s.head, directions);
    } else {
        let shorter = directions.drop_last();
        lemma_take_moves_without_food(s, shorter, ticks);
        assert(shorter.take(ticks) == directions.take(ticks));
        lemma_head_path_len(s.head, shorter);
        assert(head_path(s.head, shorter).take(ticks) == head_path(s.head, directions).take(
            ticks,
        ));
    }
}

/// Where the tail and the head lie on the track after some of the ticks.
pub proof fn lemma_track_at(s: GameModel, directions: Seq<SnakeDirection>, ticks: int)
    requires
        s.wf(),
        moves_without_food(s, directions),
        0 <= ticks <= directions.len(),
    ensures
        after_ticks(s, directions.take(ticks)).tail == track(s, directions)[ticks],
        after_ticks(s, directions.take(ticks)).head == track(s, directions)[ticks
            + s.head_directions.len()],
{
    let start = directions.take(ticks);
    let after = after_ticks(s, start);
    lemma_take_moves_without_food(s, directions, ticks);
    lemma_body_is_window_of_track(s, start);
    lemma_body_len(s.tail, s.head_directions);
    lemma_body_len(after.tail, after.head_directions);
    lemma_head_path_len(s.head, directions);
    lemma_head_path_len(s.head, start);
    let n = s.body().len() as int;
    assert forall|i: int| 0 <= i < ticks + n implies track(s, start)[i] == track(s, directions)[i] by {
        if i >= n {
            assert(head_path(s.head, start)[i - n] == head_path(s.head, directions).take(ticks)[i
                - n]);
        }
    }
}

/// The grid shows the snake exactly where it lies: no cell occurs twice in
/// the body, and a cell of the grid holds `SNAKE` exactly if it is a cell of
/// the body.
pub open spec fn shows_snake(s: GameModel) -> bool {
    &&& forall|i: int, j: int|
        0 <= i < j < s.body().len() ==> #[trigger] s.body()[i] != #[trigger] s.body()[j]
    &&& forall|p: (int, int)|
        in_grid(s.grid, p) ==> (#[trigger] cell_at(s.grid, p) == SNAKE <==> s.body().contains(p))
}

/// A grid none of whose cells holds a value counts no cell of that value.
pub proof fn lemma_count_none(g: Seq<Seq<Cell>>, value: Cell)
    requires
        forall|r: int, c: int| 0 <= r < g.len() && 0 <= c < g[r].len() ==> #[trigger] g[r][c]
            != value,
    ensures
        count_cells(g, value) == 0,
    decreases g.len(),
{
    if g.len() > 0 {
        lemma_count_none(g.drop_last(), value);
        lemma_count_in_row_none(g.last(), value);
    }
}

/// A row none of whose cells holds a value counts no cell of that value.
pub proof fn lemma_count_in_row_none(row: Seq<Cell>, value: Cell)
    requires
        forall|c: int| 0 <= c < row.len() ==> #[trigger] row[c] != value,
    ensures
        count_in_row(row, value) == 0,
    decreases row.len(),
{
    if row.len() > 0 {
        lemma_count_in_row_none(row.drop_last(), value);
    }
}

/// Where distinct cells of the grid are exactly those that hold a value,
/// the grid counts as many cells of that value as there are cells in the
/// list.
pub proof fn lemma_count_listed(g: Seq<Seq<Cell>>, cells: Seq<(int, int)>, value: Cell)
    requires
        well_shaped(g),
        forall|i: int| 0 <= i < cells.len() ==> in_grid(g, #[trigger] cells[i]),
        forall|i: int, j: int|
            0 <= i < j < cells.len() ==> #[trigger] cells[i] != #[trigger] cells[j],
        forall|p: (int, int)|
            in_grid(g, p) ==> (#[trigger] cell_at(g, p) == value <==> cells.contains(p)),
    ensures
        count_cells(g, value) == cells.len(),
    decreases cells.len(),
{
    if cells.len() == 0 {
        assert forall|r: int, c: int| 0 <= r < g.len() && 0 <= c < g[r].len() implies #[trigger] g[r][c]
            != value by {
            assert(cell_at(g, (r, c)) == g[r][c]);
        }
        lemma_count_none(g, value);
    } else {
        let last = cells.last();
        let rest = cells.drop_last();
        let other = if value == EMPTY {
            FOOD
        } else {
            EMPTY
        };
        let cleared = set_cell(g, last, other);
        lemma_set_cell_keeps_shape(g, last, other);
        lemma_count_cells_set(g, last, other, value);
        assert forall|p: (int, int)| in_grid(cleared, p) implies (#[trigger] cell_at(cleared, p)
            == value <==> rest.contains(p)) by {
            if p != last {
                assert(cell_at(cleared, p) == cell_at(g, p));
                if cells.contains(p) {
                    let i = choose|i: int| 0 <= i < cells.len() && cells[i] == p;
                    assert(rest[i] == p);
                }
            }
        }
        lemma_count_listed(cleared, rest, value);
    }
}

/// Where the grid shows the snake, it shows it on as many cells as the
/// snake is long, which is one more than the queue holds directions; the
/// cells of the head and of the tail are among them.
pub proof fn shown_snake_is_counted(s: GameModel)
    requires
        s.wf(),
        shows_snake(s),
    ensures
        count_cells(s.grid, SNAKE) == s.head_directions.len() + 1,
        cell_at(s.grid, s.head) == SNAKE,
        cell_at(s.grid, s.tail) == SNAKE,
{
    lemma_body_len(s.tail, s.head_directions);
    lemma_count_listed(s.grid, s.body(), SNAKE);
}

/// At the start of a game the grid shows the snake.
pub proof fn initial_state_shows_snake(nrows: nat, ncols: nat)
    requires
        nrows >= 1,
        ncols >= 2,
    ensures
        shows_snake(initial_model(nrows, ncols)),
{
    let s = initial_model(nrows, ncols);
    let right = seq![SnakeDirection::Right];
    assert(body_from((0, 1), right.drop_last()) == seq![(0int, 1int)]);
    assert forall|p: (int, int)| in_grid(s.grid, p) implies (#[trigger] cell_at(s.grid, p) == SNAKE
        <==> s.body().contains(p)) by {
        if p == (0int, 0int) {
            assert(s.body()[0] == p);
        } else if p == (0int, 1int) {
            assert(s.body()[1] == p);
        }
    }
}

/// A head that moves onto a cell that does not show the snake leaves the
/// snake shown.
pub proof fn lemma_head_move_keeps_snake_shown(s: GameModel, direction: SnakeDirection)
    requires
        s.wf(),
        shows_snake(s),
        s.can_advance(direction),
        cell_at(s.grid, next_position(s.head, direction)) != SNAKE,
    ensures
        shows_snake(s.with_head_at(next_position(s.head, direction), direction)),
{
    let pos = next_position(s.head, direction);
    let moved = s.with_head_at(pos, direction);
    lemma_head_move_keeps_wf(s, direction);
    lemma_set_cell_keeps_shape(s.grid, pos, SNAKE);
    assert forall|p: (int, int)| in_grid(moved.grid, p) implies (#[trigger] cell_at(moved.grid, p)
        == SNAKE <==> moved.body().contains(p)) by {
        if p != pos {
            assert(cell_at(moved.grid, p) == cell_at(s.grid, p));
            if s.body().contains(p) {
                let i = choose|i: int| 0 <= i < s.body().len() && s.body()[i] == p;
                assert(moved.body()[i] == p);
            }
        }
    }
}

/// A tail that follows leaves the snake shown.
pub proof fn lemma_tail_move_keeps_snake_shown(s: GameModel)
    requires
        s.wf(),
        shows_snake(s),
        s.head_directions.len() > 0,
    ensures
        shows_snake(s.with_tail_advanced()),
{
    let followed = s.with_tail_advanced();
    lemma_tail_move_keeps_wf(s);
    lemma_body_len(s.tail, s.head_directions);
    lemma_set_cell_keeps_shape(s.grid, s.tail, EMPTY);
    assert forall|p: (int, int)| in_grid(followed.grid, p) implies (#[trigger] cell_at(
        followed.grid,
        p,
    ) == SNAKE <==> followed.body().contains(p)) by {
        if p != s.tail {
            assert(cell_at(followed.grid, p) == cell_at(s.grid, p));
        }
    }
}

/// As long as the head does not run into the snake, a tick leaves the
/// snake shown: the grid goes on showing it exactly where it lies.
pub proof fn tick_keeps_snake_shown(s: GameModel, direction: SnakeDirection)
    requires
        s.wf(),
        shows_snake(s),
        s.can_advance(direction) ==> cell_at(s.grid, next_position(s.head, direction)) != SNAKE,
    ensures
        shows_snake(s.advance(direction)),
{
    if s.can_advance(direction) {
        let moved = s.with_head_at(next_position(s.head, direction), direction);
        lemma_head_move_keeps_wf(s, direction);
        lemma_head_move_keeps_snake_shown(s, direction);
        if !s.finds_food(direction) {
            lemma_tail_move_keeps_snake_shown(moved);
            assert(s.advance(direction).body() == moved.with_tail_advanced().body());
        }
    }
}

} // verus!
