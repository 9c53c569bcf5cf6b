use vstd::prelude::*;

verus! {

/// Tag component for immovable geometry (floors, walls). Entities carrying it
/// never move and serve only as collision targets.
#[derive(Clone, Copy, Debug, PartialEq, Eq, Structural)]
pub struct Wall {}

/// State component for the one input-driven entity. `jumping` is true only
/// while the player is airborne after an upward launch; collision resolution
/// clears it the moment the player rests against a `Wall`.
#[derive(Clone, Copy, Debug, PartialEq, Eq, Structural)]
pub struct Player {
    pub jumping: bool,
}

/// A point in world coordinates. All coordinates in this crate are fixed-point
/// integers counted in tenths of a world unit, so every quantity the physics
/// uses (gravity 0.1, clamp bound 3.0, ...) is represented exactly.
#[derive(Clone, Copy, Debug, PartialEq, Eq, Structural)]
pub struct Position {
    pub x: i64,
    pub y: i64,
}

/// An axis-aligned bounding box extent, in tenths of a unit. Both sides are
/// positive for every entity that carries one.
#[derive(Clone, Copy, Debug, PartialEq, Eq, Structural)]
pub struct Rect {
    pub width: i64,
    pub height: i64,
}

/// Per-frame displacement, in tenths of a unit per tick.
#[derive(Clone, Copy, Debug, PartialEq, Eq, Structural)]
pub struct Velocity {
    pub dx: i64,
    pub dy: i64,
}

} // verus!
