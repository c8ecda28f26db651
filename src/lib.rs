//! The rules of a grid-based snake game, as a plain simulation core:
//! grid cells, a buffered direction queue, snake movement on a torus,
//! food placement, powerup effects, a tick clock and the game's states.

pub mod config;
pub mod direction;
pub mod food;
pub mod game;
pub mod grid;
pub mod input;
pub mod powerup;
mod random;
pub mod snake;
pub mod ui;
