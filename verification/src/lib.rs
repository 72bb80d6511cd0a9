//! A two-paddle ball-bounce court simulated in exact fixed-point arithmetic.
//!
//! Lengths are counted in millionths of a court unit, times in microseconds and
//! velocities in millionths of a court unit per second, so every rule of the game
//! is a statement about integers.
//!
//! `fixed`, `vector` and `geometry` hold the arithmetic; `court` the measures of
//! the playfield; `entities` the ball, the paddles and the pending input;
//! `controllers` and `collision` the rules of a frame; `driver` the session that
//! applies them in order; `laws` what follows for every frame.

pub mod fixed;
pub mod vector;
pub mod geometry;
pub mod court;
pub mod entities;
pub mod controllers;
pub mod errors;
pub mod collision;
pub mod driver;
pub mod laws;
