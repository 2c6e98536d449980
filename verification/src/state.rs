//! Session state: the health counter and the lost flag, together with the
//! per-frame transition relation they obey.

use vstd::prelude::*;

verus! {

use crate::START_HEALTH;

/// The mutable session state owned by the frame-update core.
///
/// `health` stays in `0..=START_HEALTH` and never increases once the session
/// runs; `lost` goes from `false` to `true` exactly when `health` reaches
/// zero, and never reverts.
#[derive(Clone, Copy, Debug, PartialEq, Eq, Structural)]
pub struct GameState {
    pub health: u8,
    pub lost: bool,
}

impl GameState {
    /// Well-formedness: health within range, and the lost flag only set once
    /// health is exhausted.
    pub open spec fn wf(self) -> bool {
        &&& self.health <= START_HEALTH
        &&& (self.lost ==> self.health == 0)
    }

    /// The relation one frame of the update loop establishes between the
    /// session state before and after: health never increases, and the lost
    /// flag is set exactly when it already was or health has reached zero.
    pub open spec fn step_to(self, post: GameState) -> bool {
        &&& post.health <= self.health
        &&& post.lost == (self.lost || post.health == 0)
    }
}

/// Consecutive states of a trace are related by one frame of the update
/// loop.
pub open spec fn trace_step(states: Seq<GameState>, k: int) -> bool {
    states[k].step_to(states[k + 1])
}

/// The whole trace advances frame by frame.
pub open spec fn frame_trace(states: Seq<GameState>) -> bool {
    forall|k: int| 0 <= k < states.len() - 1 ==> #[trigger] trace_step(states, k)
}

proof fn lemma_trace_monotone(states: Seq<GameState>, i: int, j: int)
    requires
        frame_trace(states),
        0 <= i <= j < states.len(),
    ensures
        states[j].health <= states[i].health,
    decreases j - i,
{
    if i < j {
        lemma_trace_monotone(states, i, j - 1);
        assert(trace_step(states, j - 1));
    }
}

proof fn lemma_trace_lost(states: Seq<GameState>, i: int)
    requires
        frame_trace(states),
        states.len() > 0,
        states[0].health == START_HEALTH,
        !states[0].lost,
        0 <= i < states.len(),
    ensures
        states[i].lost <==> exists|j: int| 0 <= j <= i && (#[trigger] states[j]).health == 0,
    decreases i,
{
    if i == 0 {
        assert(!(exists|j: int| 0 <= j <= 0 && (#[trigger] states[j]).health == 0))
            by {
            if exists|j: int| 0 <= j <= 0 && (#[trigger] states[j]).health == 0 {
                let w = choose|j: int| 0 <= j <= 0 && (#[trigger] states[j]).health == 0;
                assert(states[0].health == 0);
            }
        }
    } else {
        lemma_trace_lost(states, i - 1);
        assert(trace_step(states, i - 1));
        if states[i].lost {
            if states[i - 1].lost {
                let w = choose|j: int| 0 <= j <= i - 1 && (#[trigger] states[j]).health == 0;
                assert(0 <= w <= i && states[w].health == 0);
            } else {
                assert(states[i].health == 0);
            }
        } else {
            if exists|j: int| 0 <= j <= i && (#[trigger] states[j]).health == 0 {
                let w = choose|j: int| 0 <= j <= i && (#[trigger] states[j]).health == 0;
                if w <= i - 1 {
                    assert(0 <= w <= i - 1 && states[w].health == 0);
                } else {
                    assert(states[i].health == 0);
                }
                assert(false);
            }
        }
    }
}

/// Across a whole session — the sequence of session states after each
/// frame, starting from a fresh session, consecutive states related by
/// one frame of the update loop — health stays within `0..=START_HEALTH`
/// and never increases, and the lost flag is set in exactly those states
/// from the first exhausted one on: `lost` holds iff health has reached
/// zero at least once.
pub proof fn lemma_session_invariants(states: Seq<GameState>)
    requires
        states.len() > 0,
        states[0].health == START_HEALTH,
        !states[0].lost,
        frame_trace(states),
    ensures
        forall|i: int| 0 <= i < states.len() ==> (#[trigger] states[i]).health <= START_HEALTH,
        forall|i: int, j: int|
            #![trigger states[i], states[j]]
            0 <= i <= j < states.len() ==> states[j].health <= states[i].health,
        forall|i: int|
            0 <= i < states.len() ==> ((#[trigger] states[i]).lost <==> exists|j: int|
                0 <= j <= i && (#[trigger] states[j]).health == 0),
{
    assert forall|i: int, j: int|
        #![trigger states[i], states[j]]
        0 <= i <= j < states.len() implies states[j].health <= states[i].health by {
        lemma_trace_monotone(states, i, j);
    }
    assert forall|i: int| 0 <= i < states.len() implies (#[trigger] states[i]).health
        <= START_HEALTH by {
        lemma_trace_monotone(states, 0, i);
    }
    assert forall|i: int| 0 <= i < states.len() implies ((#[trigger] states[i]).lost
        <==> exists|j: int| 0 <= j <= i && (#[trigger] states[j]).health == 0) by {
        lemma_trace_lost(states, i);
    }
}

impl Default for GameState {
    /// A fresh session: full health, not lost.
    fn default() -> (s: GameState)
        ensures
            s.health == START_HEALTH,
            !s.lost,
            s.wf(),
    {
        GameState { health: START_HEALTH, lost: false }
    }
}

} // verus!
