//! Entity motion: the time-based difficulty scaler, the scrolling road, and
//! obstacle movement with off-screen recycling.

use vstd::prelude::*;
use rand::Rng;

verus! {

use crate::{
    DIFFICULTY_STEP, MAX_DELTA_MS, MAX_ELAPSED_MS, MILLIS_PER_SECOND, OBSTACLES_SPEED,
    ROAD_SPEED,
};
use crate::entity::{Entity, Role};

/// A road segment whose `x` has fallen below this wraps to the right edge.
pub const ROAD_WRAP_X: i64 = -675_000;

/// How far a wrapping road segment jumps to the right, in milli-units.
/// Equal to segment count times spacing (20 × 150 units), so the scrolling
/// road stays seamless.
pub const ROAD_WRAP_DISTANCE: i64 = 1_500_000;

/// Mutual spacing of the road segments, in milli-units (150 units).
pub const ROAD_SEGMENT_SPACING: i64 = 150_000;

/// An obstacle whose `x` has fallen below this has fully left the view and
/// is recycled.
pub const OBSTACLE_EXIT_X: i64 = -800_000;

/// Recycled obstacles reappear with `x` in
/// `OBSTACLE_ENTRY_MIN_X..OBSTACLE_ENTRY_MAX_X` (800 to 1600 units ahead).
pub const OBSTACLE_ENTRY_MIN_X: i64 = 800_000;

/// Exclusive upper edge of the lateral recycle band.
pub const OBSTACLE_ENTRY_MAX_X: i64 = 1_600_000;

/// Recycled obstacles reappear with `y` in
/// `OBSTACLE_BAND_MIN_Y..OBSTACLE_BAND_MAX_Y` (−300 to 300 units).
pub const OBSTACLE_BAND_MIN_Y: i64 = -300_000;

/// Exclusive upper edge of the vertical recycle band.
pub const OBSTACLE_BAND_MAX_Y: i64 = 300_000;

/// The obstacle speed at the largest accepted elapsed time; every scaled
/// speed lies between `OBSTACLES_SPEED` and this.
pub const MAX_OBSTACLE_SPEED: i64 = 10_000_000_500;

/// Current obstacle speed in world units per second: the base speed plus
/// `DIFFICULTY_STEP` for every whole second of session time.
pub open spec fn obstacles_speed_spec(elapsed_ms: u64) -> int {
    OBSTACLES_SPEED + DIFFICULTY_STEP * (elapsed_ms as int / MILLIS_PER_SECOND as int)
}

/// The difficulty scaler never slows obstacles down as the session goes on.
pub proof fn lemma_speed_monotone(elapsed_a: u64, elapsed_b: u64)
    requires
        elapsed_a <= elapsed_b,
    ensures
        obstacles_speed_spec(elapsed_a) <= obstacles_speed_spec(elapsed_b),
{
    assert(elapsed_a as int / 1000 <= elapsed_b as int / 1000) by (nonlinear_arith)
        requires 0 <= elapsed_a <= elapsed_b;
}

/// Obstacle speed for the elapsed session time: a step function that rises
/// by `DIFFICULTY_STEP` once per whole second, starting from
/// `OBSTACLES_SPEED`.
pub fn get_obstacles_speed(elapsed_ms: u64) -> (speed: i64)
    requires
        elapsed_ms <= MAX_ELAPSED_MS,
    ensures
        speed == obstacles_speed_spec(elapsed_ms),
        OBSTACLES_SPEED <= speed <= MAX_OBSTACLE_SPEED,
{
    let secs: u64 = elapsed_ms / MILLIS_PER_SECOND;
    if secs > 0 {
        OBSTACLES_SPEED + DIFFICULTY_STEP * (secs as i64)
    } else {
        OBSTACLES_SPEED
    }
}

/// Where one motion step leaves a road segment: scroll left by
/// `ROAD_SPEED` for the frame's delta, wrapping to the right edge past
/// `ROAD_WRAP_X`.
pub open spec fn road_step(x: int, delta_ms: int) -> int {
    let moved = x - ROAD_SPEED * delta_ms;
    if moved < ROAD_WRAP_X {
        moved + ROAD_WRAP_DISTANCE
    } else {
        moved
    }
}

/// The wrap distance is a whole multiple of the segment spacing, so a
/// wrapped segment lands exactly on the grid the other segments scroll
/// along.
pub proof fn lemma_road_wrap_on_spacing_grid()
    ensures
        ROAD_WRAP_DISTANCE % ROAD_SEGMENT_SPACING == 0,
{
}

/// One motion step moves two road segments by the same amount up to whole
/// wraps: their mutual spacing is preserved modulo the road's length, so
/// the road shows no seam however often its segments wrap.
pub proof fn lemma_road_spacing_preserved(x1: int, x2: int, delta_ms: int)
    ensures
        (road_step(x1, delta_ms) - road_step(x2, delta_ms) - (x1 - x2)) % (
        ROAD_WRAP_DISTANCE as int) == 0,
{
}

/// Advance one road segment by one frame.
pub fn update_road_segment(seg: &mut Entity, delta_ms: u64)
    requires
        old(seg).in_range(),
        delta_ms <= MAX_DELTA_MS,
    ensures
        final(seg).x == road_step(old(seg).x as int, delta_ms as int),
        final(seg).y == old(seg).y,
        final(seg).rotation == old(seg).rotation,
        old(seg).same_identity(*final(seg)),
{
    seg.x = seg.x - ROAD_SPEED * (delta_ms as i64);
    if seg.x < ROAD_WRAP_X {
        seg.x = seg.x + ROAD_WRAP_DISTANCE;
    }
}

/// Relies on rand::thread_rng and rand::Rng::gen_range: a draw from the
/// half-open range `lo..hi` yields a value at least `lo` and below `hi`.
/// `gen_range` panics on an empty range, so that is excluded.
#[verifier::external_body]
fn draw_in_range(lo: i64, hi: i64) -> (r: i64)
    requires
        lo < hi,
    ensures
        lo <= r < hi,
{
    rand::thread_rng().gen_range(lo..hi)
}

/// What one motion step does to an obstacle: it scrolls left by `speed`
/// for the frame's delta; past `OBSTACLE_EXIT_X` it is instead recycled to
/// a fresh position in the entry bands, keeping everything but its
/// position.
pub open spec fn obstacle_step_rel(pre: Entity, post: Entity, speed: int, delta_ms: int) -> bool {
    let moved = pre.x - speed * delta_ms;
    &&& pre.same_identity(post)
    &&& post.rotation == pre.rotation
    &&& if moved < OBSTACLE_EXIT_X {
            &&& OBSTACLE_ENTRY_MIN_X <= post.x < OBSTACLE_ENTRY_MAX_X
            &&& OBSTACLE_BAND_MIN_Y <= post.y < OBSTACLE_BAND_MAX_Y
        } else {
            &&& post.x == moved
            &&& post.y == pre.y
        }
}

/// Advance one obstacle by one frame at the given scaled speed, recycling
/// it once it has fully left the view.
pub fn update_obstacle(ob: &mut Entity, speed: i64, delta_ms: u64)
    requires
        old(ob).in_range(),
        delta_ms <= MAX_DELTA_MS,
        OBSTACLES_SPEED <= speed <= MAX_OBSTACLE_SPEED,
    ensures
        obstacle_step_rel(*old(ob), *final(ob), speed as int, delta_ms as int),
        final(ob).in_range(),
{
    proof {
        assert(0 <= speed * delta_ms <= MAX_OBSTACLE_SPEED * MAX_DELTA_MS) by (nonlinear_arith)
            requires
                OBSTACLES_SPEED <= speed <= MAX_OBSTACLE_SPEED,
                0 <= delta_ms <= MAX_DELTA_MS;
    }
    ob.x = ob.x - speed * (delta_ms as i64);
    if ob.x < OBSTACLE_EXIT_X {
        ob.x = draw_in_range(OBSTACLE_ENTRY_MIN_X, OBSTACLE_ENTRY_MAX_X);
        ob.y = draw_in_range(OBSTACLE_BAND_MIN_Y, OBSTACLE_BAND_MAX_Y);
    }
}

/// What the motion system does to one entity in one frame, at the scaled
/// obstacle speed: road segments scroll and wrap, obstacles scroll and
/// recycle, and every other entity (the player) is left untouched.
pub open spec fn motion_rel(pre: Entity, post: Entity, speed: int, delta_ms: int) -> bool {
    match pre.role {
        Role::RoadSegment => {
            &&& pre.same_identity(post)
            &&& post.x == road_step(pre.x as int, delta_ms)
            &&& post.y == pre.y
            &&& post.rotation == pre.rotation
        },
        Role::Obstacle => obstacle_step_rel(pre, post, speed, delta_ms),
        Role::Player => post == pre,
    }
}

/// Advance every road segment and obstacle by one frame, visiting each
/// entity exactly once and leaving the player untouched.
pub fn update_entities(entities: &mut Vec<Entity>, elapsed_ms: u64, delta_ms: u64)
    requires
        forall|i: int| 0 <= i < old(entities)@.len() ==> old(entities)@[i].in_range(),
        delta_ms <= MAX_DELTA_MS,
        elapsed_ms <= MAX_ELAPSED_MS,
    ensures
        final(entities)@.len() == old(entities)@.len(),
        forall|i: int| 0 <= i < old(entities)@.len() ==> motion_rel(
            old(entities)@[i],
            final(entities)@[i],
            obstacles_speed_spec(elapsed_ms),
            delta_ms as int,
        ),
{
    let speed = get_obstacles_speed(elapsed_ms);
    let n = entities.len();
    let mut i: usize = 0;
    while i < n
        invariant
            n == entities@.len(),
            entities@.len() == old(entities)@.len(),
            i <= n,
            delta_ms <= MAX_DELTA_MS,
            OBSTACLES_SPEED <= speed <= MAX_OBSTACLE_SPEED,
            speed == obstacles_speed_spec(elapsed_ms),
            forall|j: int| 0 <= j < old(entities)@.len() ==> old(entities)@[j].in_range(),
            forall|j: int| i <= j < n ==> entities@[j] == old(entities)@[j],
            forall|j: int| 0 <= j < i ==> motion_rel(
                old(entities)@[j],
                entities@[j],
                speed as int,
                delta_ms as int,
            ),
        decreases n - i,
    {
        match entities[i].role {
            Role::RoadSegment => {
                let mut seg = entities[i];
                update_road_segment(&mut seg, delta_ms);
                entities[i] = seg;
            },
            Role::Obstacle => {
                let mut ob = entities[i];
                update_obstacle(&mut ob, speed, delta_ms);
                entities[i] = ob;
            },
            Role::Player => {},
        }
        i = i + 1;
    }
}

} // verus!
