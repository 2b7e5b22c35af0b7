//! A small flap-through-the-gaps arcade game: fixed-step physics for the
//! player, a scrolling obstacle with a randomly placed gap, and the state
//! machine that ties them together.
//!
//! Vertical positions and velocities are kept in fixed point, in hundredths of
//! a screen cell, so that the physics is exact integer arithmetic. Elapsed time
//! is counted in microseconds.

use vstd::prelude::*;

pub mod obstacle;
pub mod player;
pub mod state;

verus! {

/// Width of the playing field, in cells.
pub const SCREEN_WIDTH: i32 = 50;

/// Height of the playing field, in cells.
pub const SCREEN_HEIGHT: i32 = 30;

/// Number of fixed-point steps in one screen cell.
pub const SUBCELLS: i64 = 100;

/// The lowest vertical position, in hundredths of a cell.
pub const SCREEN_BOTTOM: i64 = 3000;

/// Velocity gained on each physics step, in hundredths of a cell per step.
pub const GRAVITY: i64 = 15;

/// Velocity set by a flap, in hundredths of a cell per step (negative is up).
pub const FLAP_STRENGTH: i64 = -150;

/// Simulated time between two physics steps, in microseconds.
pub const FRAME_DURATION_US: u64 = 100_000;

} // verus!
