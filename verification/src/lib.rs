//! A verified entity-component simulation core for a 2D platformer scene.
//!
//! Every frame the pipeline reads the held directions, integrates velocity
//! under gravity and friction, moves positions, and resolves axis-aligned
//! collisions of the player against static geometry. All coordinates are
//! fixed-point integers counted in tenths of a world unit, so each step of
//! the physics is exact.

use vstd::prelude::*;

pub mod entities;
pub mod input;
pub mod laws;
pub mod state;
pub mod systems;
pub mod world;

verus! {

/// World width, in tenths of a unit (800 units).
pub const WIDTH: i64 = 8000;

/// World height, in tenths of a unit (600 units).
pub const HEIGHT: i64 = 6000;

} // verus!
