//! The three states of a run and the edges between them.

use vstd::prelude::*;

verus! {

/// Where a run stands.
#[derive(Clone, Copy, Debug, PartialEq, Eq, Hash, Structural)]
pub enum GameState {
    /// Waiting at the spawn point for the first jump.
    Ready,
    /// The course scrolls and the player flies.
    Playing,
    /// The player has crashed; the scene rests before it is reset.
    Dead,
}

impl Default for GameState {
    fn default() -> (state: GameState)
        ensures
            state == GameState::Ready,
    {
        GameState::Ready
    }
}

/// The edges of the run controller: a state may stay as it is, and beyond
/// that only `Ready -> Playing`, `Playing -> Dead` and `Dead -> Ready` exist.
pub open spec fn allowed_transition(from: GameState, to: GameState) -> bool {
    ||| from == to
    ||| (from == GameState::Ready && to == GameState::Playing)
    ||| (from == GameState::Playing && to == GameState::Dead)
    ||| (from == GameState::Dead && to == GameState::Ready)
}

/// The state that follows `state` when the jump input has just become
/// active (`jump_pressed`) or not.
pub open spec fn state_after_start_check(state: GameState, jump_pressed: bool) -> GameState {
    if state == GameState::Ready && jump_pressed {
        GameState::Playing
    } else {
        state
    }
}

/// Starts the run on the jump edge: a waiting run begins to play, any other
/// state is left alone.
pub fn check_for_game_start(state: GameState, jump_pressed: bool) -> (next: GameState)
    ensures
        next == state_after_start_check(state, jump_pressed),
        allowed_transition(state, next),
{
    match state {
        GameState::Ready => if jump_pressed {
            GameState::Playing
        } else {
            GameState::Ready
        },
        GameState::Playing => GameState::Playing,
        GameState::Dead => GameState::Dead,
    }
}

} // verus!
