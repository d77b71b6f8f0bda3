//! The scoring evaluator: an obstacle counts once for each pass by the
//! player.

use vstd::prelude::*;
use crate::scene::{PipePair, SceneSettings};
use crate::score::{lemma_passes_add, score_after_passes, ScoreInfo, ScoredEvent};

verus! {

/// The line that an obstacle has to cross to count: the player's own `x`.
pub const SCORE_BOUNDARY: i64 = 0;

/// Whether `pipe` counts in this frame: it has not been counted for this
/// pass and stands behind the boundary.
pub open spec fn crosses(pipe: PipePair) -> bool {
    !pipe.scored && pipe.position.x < SCORE_BOUNDARY
}

/// Whether `pipe` becomes countable again in this frame: it has been
/// counted and stands more than the rearm distance in front of the boundary.
pub open spec fn rearms(pipe: PipePair, settings: SceneSettings) -> bool {
    pipe.scored && pipe.position.x > SCORE_BOUNDARY + settings.rearm_distance
}

/// `pipe` after the scoring pass: counted if it crosses, countable again if
/// it rearms, and otherwise as it was. Only the flag ever changes.
pub open spec fn marked_pipe(pipe: PipePair, settings: SceneSettings) -> PipePair {
    PipePair {
        scored: if crosses(pipe) {
            true
        } else if rearms(pipe, settings) {
            false
        } else {
            pipe.scored
        },
        ..pipe
    }
}

/// The course after the scoring pass.
pub open spec fn marked_pipes(pipes: Seq<PipePair>, settings: SceneSettings) -> Seq<PipePair> {
    Seq::new(pipes.len(), |i: int| marked_pipe(pipes[i], settings))
}

/// How many pairs of `pipes` count in this frame.
pub open spec fn crossings(pipes: Seq<PipePair>) -> nat
    decreases pipes.len(),
{
    if pipes.len() == 0 {
        0
    } else {
        crossings(pipes.drop_last()) + if crosses(pipes.last()) {
            1nat
        } else {
            0nat
        }
    }
}

/// Where no pair crosses, none counts.
pub proof fn lemma_no_crossings(pipes: Seq<PipePair>)
    requires
        forall|i: int| 0 <= i < pipes.len() ==> !crosses(#[trigger] pipes[i]),
    ensures
        crossings(pipes) == 0,
    decreases pipes.len(),
{
    if pipes.len() > 0 {
        lemma_no_crossings(pipes.drop_last());
    }
}

/// The scoring pass. Every pair that crosses the boundary is marked as
/// counted, raises the current score by one, lifts the high score with it,
/// and sends one event; every counted pair that stands beyond the rearm
/// distance is made countable again.
pub fn scoring(pipes: &mut Vec<PipePair>, settings: &SceneSettings, score: &mut ScoreInfo) -> (events:
    Vec<ScoredEvent>)
    ensures
        final(pipes)@ == marked_pipes(old(pipes)@, *settings),
        *final(score) == score_after_passes(*old(score), crossings(old(pipes)@)),
        events@.len() == crossings(old(pipes)@),
{
    let mut events: Vec<ScoredEvent> = Vec::new();
    let mut i: usize = 0;
    assert(old(pipes)@.take(0) =~= Seq::<PipePair>::empty());
    while i < pipes.len()
        invariant
            i <= pipes@.len(),
            pipes@.len() == old(pipes)@.len(),
            forall|j: int| 0 <= j < i ==> pipes@[j] == marked_pipe(old(pipes)@[j], *settings),
            forall|j: int| i <= j < pipes@.len() ==> pipes@[j] == old(pipes)@[j],
            *score == score_after_passes(*old(score), crossings(old(pipes)@.take(i as int))),
            events@.len() == crossings(old(pipes)@.take(i as int)),
        decreases pipes@.len() - i,
    {
        proof {
            let before = old(pipes)@.take(i as int);
            let with_this = old(pipes)@.take(i + 1);
            assert(with_this.drop_last() =~= before);
            assert(with_this.last() == old(pipes)@[i as int]);
            lemma_passes_add(
                *old(score),
                crossings(before),
                if crosses(old(pipes)@[i as int]) {
                    1nat
                } else {
                    0nat
                },
            );
        }
        let mut pipe = pipes[i];
        if !pipe.scored && pipe.position.x < SCORE_BOUNDARY {
            pipe.scored = true;
            score.record_pass();
            events.push(ScoredEvent);
        } else if pipe.scored && pipe.position.x > SCORE_BOUNDARY + settings.rearm_distance {
            pipe.scored = false;
        }
        pipes[i] = pipe;
        i = i + 1;
    }
    proof {
        assert(old(pipes)@.take(i as int) =~= old(pipes)@);
        assert(pipes@ =~= marked_pipes(old(pipes)@, *settings));
    }
    events
}

} // verus!
