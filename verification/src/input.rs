//! The choice of what the player asked for among the keys pressed since the
//! last tick.

use crate::direction::SnakeDirection;
use vstd::prelude::*;

verus! {

/// The key that ends the game.
pub const QUIT_CHAR: char = 'q';

/// A key as far as the game tells keys apart.
#[derive(Clone, Copy, Debug, PartialEq, Eq, Structural)]
pub enum Key {
    Char(char),
    Up,
    Down,
    Left,
    Right,
    Other,
}

/// What the player asked for.
#[derive(Clone, Copy, Debug, PartialEq, Eq, Structural)]
pub enum UserInput {
    Quit,
    Direction(SnakeDirection),
}

/// Whether an event is a press of the key that ends the game. An event is
/// a key, or nothing where reading the key failed.
pub open spec fn is_quit(event: Option<Key>) -> bool {
    event == Some(Key::Char(QUIT_CHAR))
}

/// Whether one of the events is a press of the key that ends the game.
pub open spec fn has_quit(events: Seq<Option<Key>>) -> bool {
    exists|i: int| 0 <= i < events.len() && is_quit(#[trigger] events[i])
}

/// Whether an event is a press of one of the four arrow keys.
pub open spec fn is_arrow(event: Option<Key>) -> bool {
    event == Some(Key::Up) || event == Some(Key::Right) || event == Some(Key::Down) || event
        == Some(Key::Left)
}

/// The last press of an arrow key among the events, or nothing if there is
/// none. Every other event is passed over: a key that is no arrow, and a
/// failed read as well.
pub open spec fn last_arrow(events: Seq<Option<Key>>) -> Option<Key>
    decreases events.len(),
{
    if events.len() == 0 {
        None
    } else if is_arrow(events.last()) {
        events.last()
    } else {
        last_arrow(events.drop_last())
    }
}

/// The event that counts among those of one poll: a press of the key that
/// ends the game if there is one, wherever it stands; else the last press
/// of an arrow key; else nothing.
pub open spec fn honoured_event(events: Seq<Option<Key>>) -> Option<Key> {
    if has_quit(events) {
        Some(Key::Char(QUIT_CHAR))
    } else {
        last_arrow(events)
    }
}

/// What an event asks for: the end of the game, a direction, or nothing.
pub open spec fn input_of(event: Option<Key>) -> Option<UserInput> {
    match event {
        Some(Key::Char(c)) => if c == QUIT_CHAR {
            Some(UserInput::Quit)
        } else {
            None
        },
        Some(Key::Right) => Some(UserInput::Direction(SnakeDirection::Right)),
        Some(Key::Down) => Some(UserInput::Direction(SnakeDirection::Down)),
        Some(Key::Left) => Some(UserInput::Direction(SnakeDirection::Left)),
        Some(Key::Up) => Some(UserInput::Direction(SnakeDirection::Up)),
        _ => None,
    }
}

/// Says whether an event is a press of the key that ends the game.
pub fn is_quit_event(event: &Option<Key>) -> (quit: bool)
    ensures
        quit == is_quit(*event),
{
    match event {
        Some(Key::Char(c)) => *c == QUIT_CHAR,
        _ => false,
    }
}

/// Says whether an event is a press of one of the four arrow keys.
pub fn is_arrow_event(event: &Option<Key>) -> (arrow: bool)
    ensures
        arrow == is_arrow(*event),
{
    match event {
        Some(Key::Up) => true,
        Some(Key::Right) => true,
        Some(Key::Down) => true,
        Some(Key::Left) => true,
        _ => false,
    }
}

/// Turns the event that counts into what the player asked for.
pub fn key_to_input(event: Option<Key>) -> (input: Option<UserInput>)
    ensures
        input == input_of(event),
{
    match event {
        Some(Key::Char(c)) => if c == QUIT_CHAR {
            Some(UserInput::Quit)
        } else {
            None
        },
        Some(Key::Right) => Some(UserInput::Direction(SnakeDirection::Right)),
        Some(Key::Down) => Some(UserInput::Direction(SnakeDirection::Down)),
        Some(Key::Left) => Some(UserInput::Direction(SnakeDirection::Left)),
        Some(Key::Up) => Some(UserInput::Direction(SnakeDirection::Up)),
        _ => None,
    }
}

/// Chooses what the player asked for among the events of one poll, in the
/// order in which they came. The key that ends the game counts as soon as
/// it is seen, and nothing after it is looked at. Without it, the last
/// arrow key gives the direction: a later arrow overrides an earlier one,
/// and neither another key nor a failed read after an arrow cancels it.
/// Where no arrow key was pressed, the player asked for nothing.
pub fn capture_input(events: &Vec<Option<Key>>) -> (input: Option<UserInput>)
    ensures
        input == input_of(honoured_event(events@)),
{
    let mut last_key: Option<Key> = None;
    let mut i: usize = 0;
    while i < events.len()
        invariant_except_break
            i <= events.len(),
            !has_quit(events@.take(i as int)),
            last_key == last_arrow(events@.take(i as int)),
            i == events.len() ==> events@.take(i as int) == events@,
        ensures
            last_key == honoured_event(events@),
        decreases events.len() - i,
    {
        let event = events[i];
        if is_quit_event(&event) {
            last_key = event;
            break;
        }
        if is_arrow_event(&event) {
            last_key = event;
        }
        assert(events@.take(i + 1).drop_last() == events@.take(i as int));
        i = i + 1;
    }
    key_to_input(last_key)
}

} // verus!
