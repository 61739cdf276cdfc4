//! A snake game on a rectangular grid: the state of the game, the rule that
//! moves the snake by one tick, the placement of food, the choice among the
//! keys a player pressed and the text that shows the grid on a terminal.

pub mod direction;
pub mod grid;
pub mod game;
pub mod theorems;
pub mod food;
pub mod input;
pub mod render;
pub mod play;
