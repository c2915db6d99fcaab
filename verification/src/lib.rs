//! The rules of a snake game on a bounded grid.
//!
//! The crate holds the game's data and every decision the game makes: how the
//! snake moves and grows, when it eats, when it leaves the field, what a frame
//! of the field looks like and what a key press means. Threads, locks, the
//! terminal and the clock belong to the program around it.

pub mod config;
pub mod food;
pub mod grid;
pub mod input;
pub mod render;
pub mod simulation;
pub mod snake;
pub mod status;
