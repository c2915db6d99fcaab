//! The game as it is played by default.

use vstd::prelude::*;

verus! {

/// Columns of the field.
pub const WIDTH: isize = 40;

/// Rows of the field.
pub const HEIGHT: isize = 20;

/// Milliseconds between two ticks, and between two frames.
pub const FLASH_TIME: u64 = 500;

/// Column of the snake's head at the start.
pub const SNAKE_X: isize = 10;

/// Row of the snake's head at the start.
pub const SNAKE_Y: isize = 10;

/// Column of the food at the start.
pub const FOOD_X: isize = 15;

/// Row of the food at the start.
pub const FOOD_Y: isize = 15;

/// What the player is told when the game is over.
pub const GAME_OVER: &'static str = "You are DEAD!";

} // verus!
