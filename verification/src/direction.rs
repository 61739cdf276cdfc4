//! The four directions and the geometry of one step on the grid.

use vstd::prelude::*;

verus! {

/// A position on the grid: the row first, then the column.
pub type CellPos = (usize, usize);

/// A direction in which the snake's head can move.
#[derive(Clone, Copy, Debug, PartialEq, Eq, Structural)]
pub enum SnakeDirection {
    Up,
    Right,
    Down,
    Left,
}

/// The unit offset `(rows, columns)` of one step in a direction.
pub open spec fn unit_offset(direction: SnakeDirection) -> (int, int) {
    match direction {
        SnakeDirection::Right => (0, 1),
        SnakeDirection::Down => (1, 0),
        SnakeDirection::Left => (0, -1),
        SnakeDirection::Up => (-1, 0),
    }
}

/// The position one step away from `pos` in a direction. It may lie outside
/// every grid: a coordinate of the result can be negative.
pub open spec fn next_position(pos: (int, int), direction: SnakeDirection) -> (int, int) {
    (pos.0 + unit_offset(direction).0, pos.1 + unit_offset(direction).1)
}

/// A position as a pair of mathematical integers.
pub open spec fn pos_view(pos: CellPos) -> (int, int) {
    (pos.0 as int, pos.1 as int)
}

/// Computes the position one step away from `pos`, as signed coordinates, so
/// that a step over the upper or the left edge shows as a negative number.
pub fn _calc_position(pos: CellPos, direction: SnakeDirection) -> (next: (i16, i16))
    requires
        pos.0 <= i16::MAX,
        pos.1 <= i16::MAX,
        next_position(pos_view(pos), direction).0 <= i16::MAX,
        next_position(pos_view(pos), direction).1 <= i16::MAX,
    ensures
        (next.0 as int, next.1 as int) == next_position(pos_view(pos), direction),
{
    let (x, y) = (pos.0 as i16, pos.1 as i16);
    match direction {
        SnakeDirection::Right => (x, y + 1),
        SnakeDirection::Down => (x + 1, y),
        SnakeDirection::Left => (x, y - 1),
        SnakeDirection::Up => (x - 1, y),
    }
}

/// A step in a direction is a function of the position and the direction:
/// equal inputs give equal results.
pub proof fn next_position_is_deterministic(
    pos: (int, int),
    direction: SnakeDirection,
    same_pos: (int, int),
    same_direction: SnakeDirection,
)
    requires
        pos == same_pos,
        direction == same_direction,
    ensures
        next_position(pos, direction) == next_position(same_pos, same_direction),
{
}

} // verus!
