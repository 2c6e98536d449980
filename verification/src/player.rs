//! The player controller: directional input moves the car, and the boundary
//! guard that turns leaving the playfield into an instant loss.

use vstd::prelude::*;

verus! {

use crate::{MAX_DELTA_MS, PLAYER_SPEED};
use crate::entity::Entity;
use crate::state::GameState;

/// Visual tilt per unit of vertical direction, in milli-radians (0.15
/// radians).
pub const TILT_FACTOR: i64 = 150;

/// Leftmost `x` the player may reach, in milli-units (inclusive).
pub const BOUND_MIN_X: i64 = -600_000;

/// Rightmost `x` the player may reach, in milli-units (inclusive).
pub const BOUND_MAX_X: i64 = 1_500_000;

/// Lower `y` edge of the playfield, in milli-units (exclusive: `y` equal
/// to it already counts as out).
pub const BOUND_MIN_Y: i64 = -360_000;

/// Upper `y` edge of the playfield, in milli-units (inclusive).
pub const BOUND_MAX_Y: i64 = 360_000;

/// The four directional signals read once per frame.
#[derive(Clone, Copy, Debug, PartialEq, Eq, Structural)]
pub struct InputState {
    pub up: bool,
    pub down: bool,
    pub left: bool,
    pub right: bool,
}

/// Horizontal unit direction: right and left each contribute ±1 and cancel
/// when pressed together.
pub open spec fn x_direction_spec(input: InputState) -> int {
    (if input.right { 1int } else { 0int }) - (if input.left { 1int } else { 0int })
}

/// Vertical unit direction: up and down each contribute ±1 and cancel when
/// pressed together.
pub open spec fn y_direction_spec(input: InputState) -> int {
    (if input.up { 1int } else { 0int }) - (if input.down { 1int } else { 0int })
}

/// Move the player for one frame: each axis advances independently by its
/// unit direction times `PLAYER_SPEED`, so a diagonal is a factor √2 faster
/// than an axis-aligned move — a deliberate quirk of the game, kept as it
/// is. The tilt follows the vertical direction only.
pub fn update_player(player: &mut Entity, input: &InputState, delta_ms: u64)
    requires
        old(player).in_range(),
        delta_ms <= MAX_DELTA_MS,
    ensures
        final(player).x == old(player).x + x_direction_spec(*input) * PLAYER_SPEED * delta_ms,
        final(player).y == old(player).y + y_direction_spec(*input) * PLAYER_SPEED * delta_ms,
        final(player).rotation == y_direction_spec(*input) * TILT_FACTOR,
        old(player).same_identity(*final(player)),
{
    let mut x_direction: i64 = 0;
    let mut y_direction: i64 = 0;
    if input.up {
        y_direction = y_direction + 1;
    }
    if input.down {
        y_direction = y_direction - 1;
    }
    if input.right {
        x_direction = x_direction + 1;
    }
    if input.left {
        x_direction = x_direction - 1;
    }
    let step: i64 = PLAYER_SPEED * (delta_ms as i64);
    proof {
        assert(y_direction as int == y_direction_spec(*input));
        assert(x_direction as int == x_direction_spec(*input));
        assert(y_direction as int * step as int == y_direction as int * PLAYER_SPEED as int
            * delta_ms as int && -250_000_000 <= y_direction as int * step as int
            <= 250_000_000) by (nonlinear_arith)
            requires
                -1 <= y_direction <= 1,
                step == PLAYER_SPEED as int * delta_ms as int,
                0 <= delta_ms <= MAX_DELTA_MS;
        assert(x_direction as int * step as int == x_direction as int * PLAYER_SPEED as int
            * delta_ms as int && -250_000_000 <= x_direction as int * step as int
            <= 250_000_000) by (nonlinear_arith)
            requires
                -1 <= x_direction <= 1,
                step == PLAYER_SPEED as int * delta_ms as int,
                0 <= delta_ms <= MAX_DELTA_MS;
    }
    player.y = player.y + y_direction * step;
    player.rotation = y_direction * TILT_FACTOR;
    player.x = player.x + x_direction * step;
}

/// The player has left the playfield: `x` outside
/// `[BOUND_MIN_X, BOUND_MAX_X]` or `y` outside `(BOUND_MIN_Y, BOUND_MAX_Y]`.
pub open spec fn out_of_bounds(x: int, y: int) -> bool {
    ||| x < BOUND_MIN_X
    ||| x > BOUND_MAX_X
    ||| y <= BOUND_MIN_Y
    ||| y > BOUND_MAX_Y
}

/// Boundary guard: leaving the playfield forces health to zero at once —
/// an instant, full loss, not a gradual depletion.
pub fn enforce_boundary(state: &mut GameState, player: &Entity)
    ensures
        final(state).health == if out_of_bounds(player.x as int, player.y as int) {
            0u8
        } else {
            old(state).health
        },
        final(state).lost == old(state).lost,
{
    if player.x < BOUND_MIN_X || player.x > BOUND_MAX_X {
        state.health = 0;
    }
    if player.y <= BOUND_MIN_Y || player.y > BOUND_MAX_Y {
        state.health = 0;
    }
}

} // verus!
