//! Core of a terminal side-scroller: a bird that falls under gravity and can
//! jump, obstacles that scroll in from the right edge, and the per-tick update
//! that moves both and ends the session on contact.
//!
//! The functions here are verified against their contracts. Two things are
//! taken on trust and marked where they stand: the random numbers that shape
//! a new obstacle, and the clock that says when one is due.
//!
//! Positions are whole terminal cells and velocities whole cells per tick;
//! the half-cell term of the kinematic step is carried exactly by working in
//! half cells.

use vstd::prelude::*;

pub mod animation;
pub mod bird;
pub mod color;
pub mod frame;
pub mod game;
pub mod rect;

verus! {

/// Downward acceleration of the bird, in cells per tick per tick.
pub const GRAVITY: i32 = 1;

/// Velocity that a jump gives the bird, in cells per tick; negative is up.
pub const JUMP_VELOCITY: i32 = -3;

/// Length of one physics tick.
pub const UPDATE_INTERVAL: i32 = 1;

/// Largest downward velocity that a physics step integrates.
pub const MAX_VELOCITY: i32 = 8;

/// Milliseconds that pass between the creation of two obstacles.
pub const RECT_INTERVAL: u64 = 1000;

} // verus!
