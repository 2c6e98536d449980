//! The per-frame entry point: motion, collision handling, player control,
//! boundary enforcement and the playing-to-lost transition, in the order the
//! game runs them.

use vstd::prelude::*;

verus! {

use crate::{MAX_DELTA_MS, MAX_ELAPSED_MS, PLAYER_SPEED};
use crate::collision::{
    Command, CollisionEvent, hit_commands_at, post_collision_health, process_collisions,
};
use crate::entity::{Entity, Role};
use crate::motion::{motion_rel, obstacles_speed_spec, update_entities};
use crate::player::{
    InputState, TILT_FACTOR, enforce_boundary, out_of_bounds, update_player, x_direction_spec,
    y_direction_spec,
};
use crate::state::GameState;

/// The text posted on the game-over overlay.
pub open spec fn game_over_text_spec() -> Seq<char> {
    "Game Over!"@
}

/// The text shown on the game-over overlay.
pub fn game_over_text() -> (text: String)
    ensures
        text@ == game_over_text_spec(),
{
    "Game Over!".to_owned()
}

/// The session-state machine's transition, re-evaluated unconditionally
/// every frame: with health exhausted the session is (re-)entered as lost
/// and the terminal presentation is commanded — the overlay posted, the
/// music stopped and the end-of-game cue played.
///
/// The condition is not edge-detected, so while health stays at zero these
/// commands are issued again on every later frame, just as the game
/// behaves.
pub fn evaluate_loss(state: &mut GameState, cmds: &mut Vec<Command>)
    ensures
        final(state).health == old(state).health,
        final(state).lost == (old(state).lost || old(state).health == 0),
        old(state).health != 0 ==> final(cmds)@ == old(cmds)@,
        old(state).health == 0 ==> {
            &&& final(cmds)@.len() == old(cmds)@.len() + 3
            &&& forall|i: int|
                0 <= i < old(cmds)@.len() ==> final(cmds)@[i] == old(cmds)@[i]
            &&& final(cmds)@[old(cmds)@.len() as int] matches Command::PostGameOver(text)
                && text@ == game_over_text_spec()
            &&& final(cmds)@[old(cmds)@.len() as int + 1] == Command::StopMusic
            &&& final(cmds)@[old(cmds)@.len() as int + 2] == Command::PlayGameOverCue
        },
{
    if state.health == 0 {
        state.lost = true;
        cmds.push(Command::PostGameOver(game_over_text()));
        cmds.push(Command::StopMusic);
        cmds.push(Command::PlayGameOverCue);
    }
}

/// Exactly one entity of the set plays the player's part.
pub open spec fn has_unique_player(s: Seq<Entity>) -> bool {
    &&& exists|i: int| 0 <= i < s.len() && (#[trigger] s[i]).role is Player
    &&& forall|i: int, j: int|
        #![trigger s[i], s[j]]
        0 <= i < s.len() && 0 <= j < s.len() && s[i].role is Player && s[j].role is Player ==> i
            == j
}

/// The index of the player entity.
pub open spec fn player_index(s: Seq<Entity>) -> int {
    choose|i: int| 0 <= i < s.len() && (#[trigger] s[i]).role is Player
}

/// Find the player entity; its presence is part of the session's setup
/// contract.
fn find_player(entities: &Vec<Entity>) -> (idx: usize)
    requires
        has_unique_player(entities@),
    ensures
        idx < entities@.len(),
        entities@[idx as int].role is Player,
        idx == player_index(entities@),
{
    let n = entities.len();
    let mut i: usize = 0;
    while i < n
        invariant
            n == entities@.len(),
            i <= n,
            has_unique_player(entities@),
            forall|j: int| 0 <= j < i ==> !((#[trigger] entities@[j]).role is Player),
        decreases n - i,
    {
        if matches!(entities[i].role, Role::Player) {
            return i;
        }
        i = i + 1;
    }
    proof {
        let w = choose|k: int| 0 <= k < entities@.len() && (#[trigger] entities@[k]).role
            is Player;
        assert(!(entities@[w].role is Player));
    }
    0
}

/// One frame of the game: advance the road and the obstacles at the
/// difficulty-scaled speed, drain the collision queue against health, move
/// the player by the frame's input, enforce the playfield boundary, and
/// run the playing-to-lost transition.
///
/// The returned commands are the frame's presentation effects in order:
/// one label refresh and one feedback cue per health point lost to a
/// collision, then — whenever health ends the frame at zero — the
/// game-over overlay, the music stop and the end-of-game cue.
pub fn game_logic(
    state: &mut GameState,
    entities: &mut Vec<Entity>,
    events: Vec<CollisionEvent>,
    input: &InputState,
    delta_ms: u64,
    elapsed_ms: u64,
) -> (cmds: Vec<Command>)
    requires
        old(state).wf(),
        delta_ms <= MAX_DELTA_MS,
        elapsed_ms <= MAX_ELAPSED_MS,
        forall|i: int| 0 <= i < old(entities)@.len() ==> (#[trigger] old(entities)@[i]).in_range(),
        has_unique_player(old(entities)@),
    ensures
        ({
            let pi = player_index(old(entities)@);
            let pre_player = old(entities)@[pi];
            let px = pre_player.x + x_direction_spec(*input) * PLAYER_SPEED * delta_ms;
            let py = pre_player.y + y_direction_spec(*input) * PLAYER_SPEED * delta_ms;
            let drained = post_collision_health(old(state).health as int, events@);
            let hits = old(state).health - drained;
            &&& final(entities)@.len() == old(entities)@.len()
            &&& final(entities)@[pi].x == px
            &&& final(entities)@[pi].y == py
            &&& final(entities)@[pi].rotation == y_direction_spec(*input) * TILT_FACTOR
            &&& pre_player.same_identity(final(entities)@[pi])
            &&& forall|i: int|
                0 <= i < old(entities)@.len() && i != pi ==> motion_rel(
                    #[trigger] old(entities)@[i],
                    final(entities)@[i],
                    obstacles_speed_spec(elapsed_ms),
                    delta_ms as int,
                )
            &&& final(state).health as int == if out_of_bounds(px, py) {
                0int
            } else {
                drained
            }
            &&& final(state).lost == (old(state).lost || final(state).health == 0)
            &&& final(state).wf()
            &&& old(state).step_to(*final(state))
            &&& cmds@.len() == 2 * hits + if final(state).health == 0 {
                3int
            } else {
                0int
            }
            &&& forall|j: int|
                0 <= j < hits ==> #[trigger] hit_commands_at(
                    cmds@,
                    old(state).health as int,
                    j,
                )
            &&& final(state).health == 0 ==> {
                &&& cmds@[2 * hits] matches Command::PostGameOver(text) && text@
                    == game_over_text_spec()
                &&& cmds@[2 * hits + 1] == Command::StopMusic
                &&& cmds@[2 * hits + 2] == Command::PlayGameOverCue
            }
        }),
{
    let ghost pre_entities = entities@;
    let ghost pre_state = *state;
    update_entities(entities, elapsed_ms, delta_ms);
    proof {
        assert forall|i: int| 0 <= i < entities@.len() implies (#[trigger] entities@[i]).role
            == pre_entities[i].role by {
            assert(motion_rel(
                pre_entities[i],
                entities@[i],
                obstacles_speed_spec(elapsed_ms),
                delta_ms as int,
            ));
        }
        assert(has_unique_player(entities@));
        assert(player_index(entities@) == player_index(pre_entities));
    }
    let mut cmds = process_collisions(state, events);
    let ghost hit_cmds = cmds@;
    let pi = find_player(entities);
    proof {
        assert(motion_rel(
            pre_entities[pi as int],
            entities@[pi as int],
            obstacles_speed_spec(elapsed_ms),
            delta_ms as int,
        ));
        assert(entities@[pi as int] == pre_entities[pi as int]);
    }
    let mut player = entities[pi];
    update_player(&mut player, input, delta_ms);
    entities[pi] = player;
    enforce_boundary(state, &player);
    evaluate_loss(state, &mut cmds);
    proof {
        let hits = pre_state.health - post_collision_health(pre_state.health as int, events@);
        assert forall|j: int| 0 <= j < hits implies #[trigger] hit_commands_at(
            cmds@,
            pre_state.health as int,
            j,
        ) by {
            assert(hit_commands_at(hit_cmds, pre_state.health as int, j));
            assert(cmds@[2 * j] == hit_cmds[2 * j]);
            assert(cmds@[2 * j + 1] == hit_cmds[2 * j + 1]);
        }
    }
    cmds
}

} // verus!
