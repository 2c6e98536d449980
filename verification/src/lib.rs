//! Frame-update core of a 2D arcade driving game.
//!
//! A player-controlled car dodges obstacles that scroll past with a speed
//! that grows over the session; collisions and leaving the playfield drain a
//! health counter, and reaching zero health ends the session.
//!
//! All positions, per-second velocities and rotations are held in thousandths
//! of a world unit (milli-units), and time in milliseconds, so that one
//! frame's motion is exact integer arithmetic: a velocity of `v` world units
//! per second moves an entity by `v` milli-units per elapsed millisecond.

use vstd::prelude::*;

pub mod collision;
pub mod entity;
pub mod frame;
pub mod motion;
pub mod player;
pub mod state;

verus! {

/// Player speed, in world units per second.
pub const PLAYER_SPEED: i64 = 250;

/// Road scroll speed, in world units per second.
pub const ROAD_SPEED: i64 = 400;

/// Base obstacle speed, in world units per second, before difficulty scaling.
pub const OBSTACLES_SPEED: i64 = 500;

/// Obstacle speed gained per whole elapsed second, in world units per second.
pub const DIFFICULTY_STEP: i64 = 10;

/// Health a fresh session starts with.
pub const START_HEALTH: u8 = 5;

/// Milliseconds in one second, for the whole-second difficulty term.
pub const MILLIS_PER_SECOND: u64 = 1000;

/// Largest frame delta the update systems accept, in milliseconds (a
/// thousand seconds): a machine limit so that one frame's motion fits a
/// 64-bit coordinate, far beyond any real frame time.
pub const MAX_DELTA_MS: u64 = 1_000_000;

/// Largest elapsed session time the difficulty scaler accepts, in
/// milliseconds (over thirty years): a machine limit so that the scaled
/// obstacle speed fits 64 bits.
pub const MAX_ELAPSED_MS: u64 = 1_000_000_000_000;

} // verus!
