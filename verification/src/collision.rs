//! Collision notifications, the health state machine, and the commands the
//! core issues to the presentation layer.

use vstd::prelude::*;

verus! {

use crate::START_HEALTH;
use crate::entity::Role;
use crate::state::GameState;

/// Phase of a collision notification: only the start of a contact counts.
#[derive(Clone, Copy, Debug, PartialEq, Eq, Structural)]
pub enum Phase {
    Begin,
    End,
}

/// One collision notification: the unordered pair of parties and the
/// contact phase. Produced externally once per contact transition; the
/// core consumes the frame's whole queue and discards it.
#[derive(Clone, Copy, Debug, PartialEq, Eq, Structural)]
pub struct CollisionEvent {
    pub first: Role,
    pub second: Role,
    pub phase: Phase,
}

/// A command the core issues to its presentation collaborators; the core
/// itself does no rendering or audio.
#[derive(Debug, PartialEq, Eq)]
pub enum Command {
    /// Overwrite the health label with this text.
    SetHealthText(String),
    /// Play the collision feedback cue.
    PlayImpactCue,
    /// Post the game-over overlay with this text.
    PostGameOver(String),
    /// Stop the background music.
    StopMusic,
    /// Play the end-of-game cue.
    PlayGameOverCue,
}

/// A notification costs health exactly when the player is one of the two
/// parties and the contact is beginning.
pub open spec fn hits_player(ev: CollisionEvent) -> bool {
    (ev.first is Player || ev.second is Player) && ev.phase is Begin
}

/// How many notifications of the sequence hit the player.
pub open spec fn hit_count(events: Seq<CollisionEvent>) -> int
    decreases events.len(),
{
    if events.len() == 0 {
        0
    } else {
        hit_count(events.drop_last()) + if hits_player(events.last()) {
            1int
        } else {
            0int
        }
    }
}

/// Health after draining the queue: one point per hit, stopping at zero.
pub open spec fn post_collision_health(health: int, events: Seq<CollisionEvent>) -> int {
    if hit_count(events) >= health {
        0
    } else {
        health - hit_count(events)
    }
}

/// The health label's text for each health value in `0..=START_HEALTH`.
pub open spec fn health_text_spec(health: int) -> Seq<char> {
    if health == 5 {
        "Health: 5"@
    } else if health == 4 {
        "Health: 4"@
    } else if health == 3 {
        "Health: 3"@
    } else if health == 2 {
        "Health: 2"@
    } else if health == 1 {
        "Health: 1"@
    } else {
        "Health: 0"@
    }
}

/// The text shown on the health label for the given health value.
pub fn health_text(health: u8) -> (text: String)
    requires
        health <= START_HEALTH,
    ensures
        text@ == health_text_spec(health as int),
{
    if health == 5 {
        "Health: 5".to_owned()
    } else if health == 4 {
        "Health: 4".to_owned()
    } else if health == 3 {
        "Health: 3".to_owned()
    } else if health == 2 {
        "Health: 2".to_owned()
    } else if health == 1 {
        "Health: 1".to_owned()
    } else {
        "Health: 0".to_owned()
    }
}

/// The pair of commands recording the `j`-th hit of the frame: the health
/// label refreshed to the value just after that hit, then one feedback
/// cue.
pub open spec fn hit_commands_at(cmds: Seq<Command>, pre_health: int, j: int) -> bool {
    &&& cmds[2 * j] matches Command::SetHealthText(text) && text@ == health_text_spec(
        pre_health - 1 - j,
    )
    &&& cmds[2 * j + 1] == Command::PlayImpactCue
}

/// Appending one notification to a drained sequence adds one to the hit
/// count exactly when it hits the player.
proof fn lemma_hit_count_push(events: Seq<CollisionEvent>, ev: CollisionEvent)
    ensures
        hit_count(events.push(ev)) == hit_count(events) + if hits_player(ev) {
            1int
        } else {
            0int
        },
{
    assert(events.push(ev).drop_last() =~= events);
    assert(events.push(ev).last() == ev);
}

/// Drain the frame's collision queue against the session's health.
///
/// Every notification that hits the player while health is still positive
/// costs one point; for each such hit the health label is refreshed at
/// once (so its final text matches the final health exactly) and one
/// feedback cue is issued. Simultaneous hits can drive health to zero but
/// never below it. The queue is consumed: notifications are never carried
/// to a later frame.
pub fn process_collisions(state: &mut GameState, events: Vec<CollisionEvent>) -> (cmds: Vec<
    Command,
>)
    requires
        old(state).wf(),
    ensures
        final(state).health == post_collision_health(old(state).health as int, events@),
        final(state).lost == old(state).lost,
        final(state).health <= old(state).health,
        final(state).wf(),
        cmds@.len() == 2 * (old(state).health - final(state).health),
        forall|j: int|
            0 <= j < old(state).health - final(state).health ==> #[trigger] hit_commands_at(
                cmds@,
                old(state).health as int,
                j,
            ),
{
    let ghost initial_health = state.health as int;
    let mut cmds: Vec<Command> = Vec::new();
    let n = events.len();
    let mut i: usize = 0;
    while i < n
        invariant
            n == events@.len(),
            i <= n,
            state.health as int == post_collision_health(initial_health, events@.subrange(0, i as int)),
            state.health <= initial_health,
            initial_health <= START_HEALTH,
            state.lost == old(state).lost,
            cmds@.len() == 2 * (initial_health - state.health),
            forall|j: int|
                0 <= j < initial_health - state.health ==> #[trigger] hit_commands_at(
                    cmds@,
                    initial_health,
                    j,
                ),
        decreases n - i,
    {
        let ev = events[i];
        proof {
            assert(events@.subrange(0, i as int + 1) =~= events@.subrange(0, i as int).push(
                events@[i as int],
            ));
            lemma_hit_count_push(events@.subrange(0, i as int), events@[i as int]);
        }
        if (ev.first == Role::Player || ev.second == Role::Player) && ev.phase == Phase::Begin {
            if state.health > 0 {
                state.health = state.health - 1;
                let text = health_text(state.health);
                let ghost text_view = text@;
                let ghost prev = cmds@;
                cmds.push(Command::SetHealthText(text));
                cmds.push(Command::PlayImpactCue);
                proof {
                    let hits = initial_health - state.health;
                    assert forall|j: int| 0 <= j < hits implies #[trigger] hit_commands_at(
                        cmds@,
                        initial_health,
                        j,
                    ) by {
                        if j == hits - 1 {
                            assert(cmds@[2 * j] matches Command::SetHealthText(t) && t@
                                == text_view);
                            assert(cmds@[2 * j + 1] == Command::PlayImpactCue);
                        } else {
                            assert(hit_commands_at(prev, initial_health, j));
                            assert(cmds@[2 * j] == prev[2 * j]);
                            assert(cmds@[2 * j + 1] == prev[2 * j + 1]);
                        }
                    }
                }
            }
        }
        i = i + 1;
    }
    proof {
        assert(events@.subrange(0, n as int) =~= events@);
    }
    cmds
}

} // verus!
