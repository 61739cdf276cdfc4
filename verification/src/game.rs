//! The state of a game and the rule that moves the snake by one tick.
//!
//! The snake is not stored cell by cell. The state holds its head, its tail
//! and the directions that the head took and that the tail has not followed
//! yet, the newest first. Moving the tail takes the oldest direction off the
//! queue, so a tick costs the same however long the snake is.

use crate::direction::{_calc_position, next_position, pos_view, CellPos, SnakeDirection};
use crate::grid::{
    cell_at, cells_valid, empty_grid, get_cell, grid_size, grid_view, in_grid,
    lemma_set_cell_keeps_shape, new_grid, put_cell, set_cell, well_shaped, Cell, Grid, EMPTY, FOOD,
    SNAKE,
};
use std::collections::VecDeque;
use vstd::prelude::*;

verus! {

/// The time between two ticks of a new game, in milliseconds.
pub const TICK_MILLIS: u64 = 1000;

/// The state of a game.
pub struct GameState {
    pub grid: Grid,
    /// The time between two ticks, in milliseconds.
    pub timing: u64,
    /// The direction of the last tick that moved the snake.
    pub last_direction: SnakeDirection,
    pub head: CellPos,
    pub tail: CellPos,
    /// The directions that the head took and the tail has not followed yet,
    /// the newest at the front.
    pub head_directions: VecDeque<SnakeDirection>,
}

/// The state of a game as a mathematical value.
#[verifier::ext_equal]
pub struct GameModel {
    pub grid: Seq<Seq<Cell>>,
    pub timing: u64,
    pub last_direction: SnakeDirection,
    pub head: (int, int),
    pub tail: (int, int),
    pub head_directions: Seq<SnakeDirection>,
}

/// The cells that a snake lies on, from its tail to its head: the tail, then
/// one more cell for each direction of the queue, the oldest (the last of
/// the sequence) first.
pub open spec fn body_from(tail: (int, int), directions: Seq<SnakeDirection>) -> Seq<(int, int)>
    decreases directions.len(),
{
    if directions.len() == 0 {
        seq![tail]
    } else {
        seq![tail] + body_from(next_position(tail, directions.last()), directions.drop_last())
    }
}

impl GameModel {
    /// The cells of the snake from its tail to its head.
    pub open spec fn body(self) -> Seq<(int, int)> {
        body_from(self.tail, self.head_directions)
    }

    /// A state is well formed when its grid is a rectangle of valid cells
    /// whose coordinates fit the signed geometry, the whole snake lies on the
    /// grid, and following the queued directions from the tail leads to the
    /// head.
    pub open spec fn wf(self) -> bool {
        &&& well_shaped(self.grid)
        &&& cells_valid(self.grid)
        &&& self.grid.len() <= i16::MAX
        &&& self.grid[0].len() <= i16::MAX
        &&& forall|i: int| 0 <= i < self.body().len() ==> in_grid(self.grid, #[trigger] self.body()[i])
        &&& self.body().last() == self.head
    }

    /// Whether a step of the head in a direction stays on the grid.
    pub open spec fn can_advance(self, direction: SnakeDirection) -> bool {
        in_grid(self.grid, next_position(self.head, direction))
    }

    /// Whether the cell one step from the head in a direction holds food.
    pub open spec fn finds_food(self, direction: SnakeDirection) -> bool {
        cell_at(self.grid, next_position(self.head, direction)) == FOOD
    }

    /// The state after the head has moved to `pos`, coming from `direction`:
    /// the cell is marked and the direction is queued.
    pub open spec fn with_head_at(self, pos: (int, int), direction: SnakeDirection) -> GameModel {
        GameModel {
            grid: set_cell(self.grid, pos, SNAKE),
            head: pos,
            head_directions: seq![direction] + self.head_directions,
            ..self
        }
    }

    /// The state after the tail has followed the oldest queued direction:
    /// the cell it leaves is emptied.
    pub open spec fn with_tail_advanced(self) -> GameModel {
        GameModel {
            grid: set_cell(self.grid, self.tail, EMPTY),
            tail: next_position(self.tail, self.head_directions.last()),
            head_directions: self.head_directions.drop_last(),
            ..self
        }
    }

    /// The state after one tick in a direction. A step that would leave the
    /// grid changes nothing. Otherwise the head moves; the tail follows
    /// unless the head found food, in which case the snake grows by a cell.
    pub open spec fn advance(self, direction: SnakeDirection) -> GameModel {
        if !self.can_advance(direction) {
            self
        } else {
            let moved = self.with_head_at(next_position(self.head, direction), direction);
            let followed = if self.finds_food(direction) {
                moved
            } else {
                moved.with_tail_advanced()
            };
            GameModel { last_direction: direction, ..followed }
        }
    }
}

/// The state at the start of a game on a grid of the given size: a snake of
/// two cells in the upper left corner, facing right.
pub open spec fn initial_model(nrows: nat, ncols: nat) -> GameModel {
    GameModel {
        grid: set_cell(set_cell(empty_grid(nrows, ncols), (0, 1), SNAKE), (0, 0), SNAKE),
        timing: TICK_MILLIS,
        last_direction: SnakeDirection::Right,
        head: (0, 1),
        tail: (0, 0),
        head_directions: seq![SnakeDirection::Right],
    }
}

impl View for GameState {
    type V = GameModel;

    open spec fn view(&self) -> GameModel {
        GameModel {
            grid: grid_view(&self.grid),
            timing: self.timing,
            last_direction: self.last_direction,
            head: pos_view(self.head),
            tail: pos_view(self.tail),
            head_directions: self.head_directions@,
        }
    }
}

impl GameState {
    /// Whether the state is well formed.
    pub open spec fn wf(&self) -> bool {
        self@.wf()
    }
}

/// The body has one cell more than the queue has directions, and starts at
/// the tail.
pub proof fn lemma_body_len(tail: (int, int), directions: Seq<SnakeDirection>)
    ensures
        body_from(tail, directions).len() == directions.len() + 1,
        body_from(tail, directions)[0] == tail,
    decreases directions.len(),
{
    if directions.len() > 0 {
        lemma_body_len(next_position(tail, directions.last()), directions.drop_last());
    }
}

/// Queueing a direction at the front lengthens the body by the cell one step
/// from its head in that direction.
pub proof fn lemma_body_push_front(
    tail: (int, int),
    directions: Seq<SnakeDirection>,
    direction: SnakeDirection,
)
    ensures
        body_from(tail, seq![direction] + directions) == body_from(tail, directions).push(
            next_position(body_from(tail, directions).last(), direction),
        ),
    decreases directions.len(),
{
    let longer = seq![direction] + directions;
    lemma_body_len(tail, directions);
    if directions.len() == 0 {
        assert(body_from(next_position(tail, direction), longer.drop_last()) == seq![
            next_position(tail, direction),
        ]);
    } else {
        let second = next_position(tail, directions.last());
        assert(longer.drop_last() == seq![direction] + directions.drop_last());
        lemma_body_push_front(second, directions.drop_last(), direction);
        lemma_body_len(second, directions.drop_last());
    }
}

/// Moving the head one step onto the grid keeps a state well formed.
pub proof fn lemma_head_move_keeps_wf(s: GameModel, direction: SnakeDirection)
    requires
        s.wf(),
        s.can_advance(direction),
    ensures
        s.with_head_at(next_position(s.head, direction), direction).wf(),
        s.with_head_at(next_position(s.head, direction), direction).body() == s.body().push(
            next_position(s.head, direction),
        ),
{
    let pos = next_position(s.head, direction);
    lemma_set_cell_keeps_shape(s.grid, pos, SNAKE);
    lemma_body_push_front(s.tail, s.head_directions, direction);
    lemma_body_len(s.tail, s.head_directions);
}

/// Letting the tail follow keeps a state well formed, as long as the snake
/// has more than one cell.
pub proof fn lemma_tail_move_keeps_wf(s: GameModel)
    requires
        s.wf(),
        s.head_directions.len() > 0,
    ensures
        s.with_tail_advanced().wf(),
        s.with_tail_advanced().body() == s.body().drop_first(),
        s.with_tail_advanced().tail == s.body()[1],
{
    let followed = s.with_tail_advanced();
    lemma_body_len(s.tail, s.head_directions);
    lemma_body_len(followed.tail, followed.head_directions);
    lemma_set_cell_keeps_shape(s.grid, s.tail, EMPTY);
    assert forall|i: int| 0 <= i < followed.body().len() implies in_grid(
        followed.grid,
        #[trigger] followed.body()[i],
    ) by {
        assert(in_grid(s.grid, s.body()[i + 1]));
    }
}

/// A tick keeps a state well formed.
pub proof fn lemma_advance_keeps_wf(s: GameModel, direction: SnakeDirection)
    requires
        s.wf(),
    ensures
        s.advance(direction).wf(),
{
    if s.can_advance(direction) {
        let moved = s.with_head_at(next_position(s.head, direction), direction);
        lemma_head_move_keeps_wf(s, direction);
        if !s.finds_food(direction) {
            lemma_tail_move_keeps_wf(moved);
        }
    }
}

/// Starts a game on a grid of the given size: every cell is empty but the
/// two of the snake, which lies in the upper left corner and faces right.
pub fn init_game_state(nrows: usize, ncols: usize) -> (state: GameState)
    requires
        nrows >= 1,
        ncols >= 2,
    ensures
        state@ == initial_model(nrows as nat, ncols as nat),
        nrows <= i16::MAX && ncols <= i16::MAX ==> state.wf(),
{
    let mut head_directions: VecDeque<SnakeDirection> = VecDeque::new();
    head_directions.push_front(SnakeDirection::Right);
    let mut game_state = GameState {
        grid: new_grid(nrows, ncols),
        timing: TICK_MILLIS,
        last_direction: SnakeDirection::Right,
        head: (0, 1),
        tail: (0, 0),
        head_directions,
    };
    proof {
        let blank = empty_grid(nrows as nat, ncols as nat);
        lemma_set_cell_keeps_shape(blank, (0, 1), SNAKE);
        lemma_set_cell_keeps_shape(set_cell(blank, (0, 1), SNAKE), (0, 0), SNAKE);
    }
    put_cell(&mut game_state.grid, game_state.head, SNAKE);
    put_cell(&mut game_state.grid, game_state.tail, SNAKE);
    proof {
        lemma_body_push_front((0, 0), Seq::<SnakeDirection>::empty(), SnakeDirection::Right);
        assert(seq![SnakeDirection::Right] + Seq::<SnakeDirection>::empty() == seq![
            SnakeDirection::Right,
        ]);
    }
    game_state
}

/// Lets the tail follow the head by one cell: empties the cell it leaves
/// and takes the oldest direction off the queue.
pub fn _update_snake_tail(state: &mut GameState)
    requires
        old(state).wf(),
        old(state)@.head_directions.len() > 0,
    ensures
        final(state)@ == old(state)@.with_tail_advanced(),
        final(state).wf(),
{
    proof {
        lemma_tail_move_keeps_wf(state@);
        lemma_body_len(state@.tail, state@.head_directions);
    }
    put_cell(&mut state.grid, state.tail, EMPTY);
    let oldest = state.head_directions.pop_back().unwrap();
    let (tx, ty) = _calc_position(state.tail, oldest);
    state.tail = (tx as usize, ty as usize);
}

/// Moves the head to a cell of the grid: marks the cell and puts the
/// direction at the front of the queue.
pub fn _update_snake_head(
    state: &mut GameState,
    new_head_x: usize,
    new_head_y: usize,
    new_direction: SnakeDirection,
)
    requires
        well_shaped(old(state)@.grid),
        in_grid(old(state)@.grid, (new_head_x as int, new_head_y as int)),
    ensures
        final(state)@ == old(state)@.with_head_at(
            (new_head_x as int, new_head_y as int),
            new_direction,
        ),
        old(state).wf() && (new_head_x as int, new_head_y as int) == next_position(
            old(state)@.head,
            new_direction,
        ) ==> final(state).wf(),
{
    proof {
        if state.wf() && (new_head_x as int, new_head_y as int) == next_position(
            state@.head,
            new_direction,
        ) {
            lemma_head_move_keeps_wf(state@, new_direction);
        }
    }
    state.head = (new_head_x, new_head_y);
    put_cell(&mut state.grid, state.head, SNAKE);
    state.head_directions.push_front(new_direction);
}

/// Advances the game by one tick in a direction and says whether the game
/// goes on. A step that would take the head off the grid ends the game and
/// leaves the state as it was. Otherwise the head moves; the tail follows
/// unless the head found food. Running into the snake's own body does not
/// end the game.
pub fn update_snake(state: &mut GameState, new_direction: SnakeDirection) -> (valid: bool)
    requires
        old(state).wf(),
    ensures
        valid == old(state)@.can_advance(new_direction),
        final(state)@ == old(state)@.advance(new_direction),
        !valid ==> *final(state) == *old(state),
        final(state).wf(),
{
    proof {
        lemma_advance_keeps_wf(state@, new_direction);
        lemma_body_len(state@.tail, state@.head_directions);
    }
    let (nrows, ncols) = grid_size(&state.grid);
    let (new_head_x, new_head_y) = _calc_position(state.head, new_direction);
    if (new_head_x < 0) || (new_head_y < 0) || (new_head_x >= nrows as i16) || (new_head_y
        >= ncols as i16) {
        return false;
    }
    let (new_head_x, new_head_y) = (new_head_x as usize, new_head_y as usize);
    let does_head_meets_food = get_cell(&state.grid, (new_head_x, new_head_y)) == FOOD;
    _update_snake_head(state, new_head_x, new_head_y, new_direction);
    if !does_head_meets_food {
        _update_snake_tail(state);
    }
    state.last_direction = new_direction;
    true
}

} // verus!
