//! One round of the game loop: from what the player asked for to the next
//! state and to what the loop does next.

use crate::direction::SnakeDirection;
use crate::game::{update_snake, GameModel, GameState};
use crate::input::UserInput;
use vstd::prelude::*;

verus! {

/// How long the last frame stays on the screen when the game is over, in
/// milliseconds.
pub const GAME_OVER_MILLIS: u64 = 3000;

/// What the loop does after a round.
#[derive(Clone, Copy, Debug, PartialEq, Eq, Structural)]
pub enum Round {
    /// The player asked to stop: the loop ends at once.
    Quit,
    /// The snake moved: the loop shows the grid, waits and goes on.
    Moved,
    /// The snake would have left the grid: the loop shows the grid as it
    /// was a last time and ends.
    GameOver,
}

/// The direction of a tick: the one the player asked for, or the direction
/// of the last tick if the player asked for none.
pub open spec fn direction_of(input: Option<UserInput>, last: SnakeDirection) -> SnakeDirection {
    match input {
        Some(UserInput::Direction(direction)) => direction,
        _ => last,
    }
}

/// The state after a round.
pub open spec fn state_after_round(s: GameModel, input: Option<UserInput>) -> GameModel {
    if input == Some(UserInput::Quit) {
        s
    } else {
        s.advance(direction_of(input, s.last_direction))
    }
}

/// What the loop does after a round.
pub open spec fn round_of(s: GameModel, input: Option<UserInput>) -> Round {
    if input == Some(UserInput::Quit) {
        Round::Quit
    } else if s.can_advance(direction_of(input, s.last_direction)) {
        Round::Moved
    } else {
        Round::GameOver
    }
}

/// Chooses the direction of a tick.
pub fn next_direction(input: Option<UserInput>, last: SnakeDirection) -> (direction:
    SnakeDirection)
    ensures
        direction == direction_of(input, last),
{
    match input {
        Some(UserInput::Direction(snake_direction)) => snake_direction,
        _ => last,
    }
}

/// Plays one round. A request to stop ends the game and leaves the state
/// as it is. Otherwise the snake is moved by one tick, in the direction
/// asked for or, without a request, in that of the last tick; the game is
/// over if that tick would take the head off the grid.
pub fn play_round(state: &mut GameState, input: Option<UserInput>) -> (round: Round)
    requires
        old(state).wf(),
    ensures
        round == round_of(old(state)@, input),
        final(state)@ == state_after_round(old(state)@, input),
        round != Round::Moved ==> *final(state) == *old(state),
        final(state).wf(),
{
    if let Some(UserInput::Quit) = input {
        return Round::Quit;
    }
    let new_direction = next_direction(input, state.last_direction);
    if update_snake(state, new_direction) {
        Round::Moved
    } else {
        Round::GameOver
    }
}

} // verus!
