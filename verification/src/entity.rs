//! Entities of the playfield: the player's car, the scrolling road segments
//! and the obstacles, with their positions in milli-units.

use vstd::prelude::*;

verus! {

/// What part an entity plays in the game.
#[derive(Clone, Copy, Debug, PartialEq, Eq, Structural)]
pub enum Role {
    Player,
    RoadSegment,
    Obstacle,
}

/// One entity of the playfield.
///
/// `x`, `y` are the position and `rotation` the visual tilt, all in
/// milli-units (thousandths of a world unit or radian). `layer` is the
/// render layer and `collision` says whether the engine reports contacts
/// for this entity; the core never changes either.
#[derive(Clone, Copy, Debug, PartialEq, Eq, Structural)]
pub struct Entity {
    pub role: Role,
    pub x: i64,
    pub y: i64,
    pub rotation: i64,
    pub layer: u8,
    pub collision: bool,
}

/// Positions the motion and player systems accept, in milli-units: far
/// beyond the visible playfield, yet small enough that one frame's motion
/// cannot overflow a 64-bit coordinate.
pub const POS_LIMIT: i64 = 2_000_000_000;

impl Entity {
    /// The position lies within the coordinate range the update systems
    /// accept.
    pub open spec fn in_range(self) -> bool {
        &&& -POS_LIMIT <= self.x <= POS_LIMIT
        &&& -POS_LIMIT <= self.y <= POS_LIMIT
    }

    /// Everything but the position: recycling an obstacle or moving an
    /// entity must keep these.
    pub open spec fn same_identity(self, other: Entity) -> bool {
        &&& self.role == other.role
        &&& self.layer == other.layer
        &&& self.collision == other.collision
    }
}

} // verus!
