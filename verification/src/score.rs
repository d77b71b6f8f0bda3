//! The score of the running episode and the best score so far.

use vstd::prelude::*;

verus! {

/// Sent once for each obstacle that passes the player.
#[derive(Clone, Copy, Debug, PartialEq, Eq, Structural)]
pub struct ScoredEvent;

/// The score of the current episode and the highest score ever reached.
#[derive(Clone, Copy, Debug, PartialEq, Eq, Structural)]
pub struct ScoreInfo {
    pub current_score: u32,
    pub high_score: u32,
}

impl Default for ScoreInfo {
    fn default() -> (score: ScoreInfo)
        ensures
            score == (ScoreInfo { current_score: 0, high_score: 0 }),
    {
        ScoreInfo { current_score: 0, high_score: 0 }
    }
}

/// `score` after `passes` more obstacles have passed the player: the current
/// score rises by one for each and stops at `u32::MAX`, and with each pass
/// the high score is lifted to the current score where that is the higher of
/// the two.
pub open spec fn score_after_passes(score: ScoreInfo, passes: nat) -> ScoreInfo {
    let current: u32 = if score.current_score + passes <= u32::MAX {
        (score.current_score + passes) as u32
    } else {
        u32::MAX
    };
    ScoreInfo {
        current_score: current,
        high_score: if passes > 0 && current > score.high_score {
            current
        } else {
            score.high_score
        },
    }
}

/// The score at the start of an episode: nothing scored yet, the high score
/// kept.
pub open spec fn score_at_reset(score: ScoreInfo) -> ScoreInfo {
    ScoreInfo { current_score: 0, high_score: score.high_score }
}

impl ScoreInfo {
    /// Counts one obstacle that has passed the player.
    pub fn record_pass(&mut self)
        ensures
            *final(self) == score_after_passes(*old(self), 1),
    {
        if self.current_score < u32::MAX {
            self.current_score = self.current_score + 1;
        }
        if self.current_score > self.high_score {
            self.high_score = self.current_score;
        }
    }

    /// Starts a new episode: the current score goes back to zero.
    pub fn reset_current(&mut self)
        ensures
            *final(self) == score_at_reset(*old(self)),
    {
        self.current_score = 0;
    }
}

/// The score a process starts with: the high score that was stored, or zero
/// where nothing usable was stored, and no points in the current episode.
pub fn load_high_score(saved: Option<ScoreInfo>) -> (score: ScoreInfo)
    ensures
        score.current_score == 0,
        score.high_score == match saved {
            Some(stored) => stored.high_score,
            None => 0u32,
        },
{
    match saved {
        Some(stored) => ScoreInfo { current_score: 0, high_score: stored.high_score },
        None => ScoreInfo { current_score: 0, high_score: 0 },
    }
}

/// Counting passes one after another is counting them at once.
pub proof fn lemma_passes_add(score: ScoreInfo, first: nat, second: nat)
    ensures
        score_after_passes(score_after_passes(score, first), second) == score_after_passes(
            score,
            first + second,
        ),
{
}

/// Passes never lower either score.
pub proof fn lemma_passes_monotone(score: ScoreInfo, passes: nat)
    ensures
        score_after_passes(score, passes).current_score >= score.current_score,
        score_after_passes(score, passes).high_score >= score.high_score,
{
}

} // verus!
