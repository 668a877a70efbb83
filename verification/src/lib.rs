//! A two-player Pong simulation on a fixed time step.
//!
//! The state of a game is a [`game::GameState`]: two paddles, a ball and the
//! score. `update` advances it by one tick from the keys held down; between
//! ticks the ball's path is followed to the column of the paddle it flies
//! toward, so that a fast ball cannot pass through a paddle.
//!
//! Coordinates, speeds and time steps are decimal fixed-point numbers
//! ([`fixed::Fixed`]), so that every step of the game is exact integer
//! arithmetic that the contracts state in full. Each type of the game has a
//! model of plain integers as its view, each function says what it does to
//! that model, and the lemmas beside the models state what holds of every
//! tick.

pub mod ball;
pub mod fixed;
pub mod game;
pub mod geometry;
pub mod input;
pub mod pacing;
pub mod player;
mod random;
pub mod render;
