//! What holds of every run, however long it is played.

use vstd::prelude::*;
use crate::gameplay::{
    before_scoring, controlled, frame, has_fallen, lemma_controlled_wf, lemma_scored_wf,
    lemma_scrolled_wf, rest_is_over, with_body, FrameInput, GameView,
};
use crate::scene::{
    draw_in_band, draws_in_band, is_out_of_view, recycled_pipe, PipePair,
    SceneSettings, MAX_PIPES, MAX_SPAN,
};
use crate::score::lemma_passes_monotone;
use crate::scoring::{crosses, crossings, marked_pipe, rearms};
use crate::state::{allowed_transition, GameState};

verus! {

/// One frame of a run: what the collaborators hand in, and the height draws
/// that the course uses.
pub struct Frame {
    pub input: FrameInput,
    pub draws: Seq<i64>,
}

/// Whether each of `frames` brings one allowed height draw for each
/// obstacle of `game`.
pub open spec fn frames_fit(game: GameView, frames: Seq<Frame>) -> bool {
    forall|k: int|
        0 <= k < frames.len() ==> draws_in_band(
            game.scene_settings,
            (#[trigger] frames[k]).draws,
            game.pipes.len(),
        )
}

/// The run after `frames`, one after another.
pub open spec fn run(game: GameView, frames: Seq<Frame>) -> GameView
    decreases frames.len(),
{
    if frames.len() == 0 {
        game
    } else {
        frame(run(game, frames.drop_last()), frames.last().input, frames.last().draws)
    }
}

/// The state that follows `game.state` in a frame: a waiting run starts on
/// the jump edge, a played run ends when the player hits an obstacle or
/// falls off the world, and a resting run waits again once the rest is over.
pub open spec fn next_state(game: GameView, input: FrameInput) -> GameState {
    match input.body {
        None => game.state,
        Some(body) => match game.state {
            GameState::Ready => if input.jump_pressed {
                GameState::Playing
            } else {
                GameState::Ready
            },
            GameState::Playing => if input.collided || has_fallen(
                with_body(game, body).player,
                game.player_settings,
            ) {
                GameState::Dead
            } else {
                GameState::Playing
            },
            GameState::Dead => if rest_is_over(game, input.delta) {
                GameState::Ready
            } else {
                GameState::Dead
            },
        },
    }
}

/// What a frame keeps of a run: the settings but for the speed.
pub open spec fn same_setup(before: GameView, after: GameView) -> bool {
    &&& after.scene_settings == (SceneSettings {
        pipe_speed: after.scene_settings.pipe_speed,
        ..before.scene_settings
    })
    &&& after.player_settings == before.player_settings
    &&& after.speed_ramp == before.speed_ramp
    &&& after.dead_delay == before.dead_delay
    &&& after.pipes.len() == before.pipes.len()
}

/// One frame keeps a run well formed and keeps its setup.
pub proof fn lemma_frame_wf(game: GameView, input: FrameInput, draws: Seq<i64>)
    requires
        game.wf(),
        draws_in_band(game.scene_settings, draws, game.pipes.len()),
    ensures
        frame(game, input, draws).wf(),
        same_setup(game, frame(game, input, draws)),
{
    match input.body {
        None => {},
        Some(body) => {
            lemma_controlled_wf(game, input, body);
            let steered = controlled(with_body(game, body), input);
            lemma_scrolled_wf(steered, input.delta, draws);
            lemma_scored_wf(before_scoring(game, input, body, draws));
        },
    }
}

/// Any number of frames keep a run well formed and keep its setup.
pub proof fn lemma_run_wf(game: GameView, frames: Seq<Frame>)
    requires
        game.wf(),
        frames_fit(game, frames),
    ensures
        run(game, frames).wf(),
        same_setup(game, run(game, frames)),
    decreases frames.len(),
{
    if frames.len() > 0 {
        let earlier = frames.drop_last();
        assert forall|k: int| 0 <= k < earlier.len() implies draws_in_band(
            game.scene_settings,
            (#[trigger] earlier[k]).draws,
            game.pipes.len(),
        ) by {
            assert(earlier[k] == frames[k]);
        }
        lemma_run_wf(game, earlier);
        lemma_frame_wf(run(game, earlier), frames.last().input, frames.last().draws);
    }
}

/// State closure. In every frame the state changes as the controller's
/// table says and in no other way: a waiting run starts on the jump edge, a
/// played run ends on a collision or a fall, a resting run waits again once
/// the rest is over, and nothing else moves the state.
pub proof fn law_state_closure(game: GameView, input: FrameInput, draws: Seq<i64>)
    ensures
        frame(game, input, draws).state == next_state(game, input),
        allowed_transition(game.state, frame(game, input, draws).state),
{
}

/// State closure along a run: each frame of a run takes one edge of the
/// controller's table, or none.
pub proof fn law_run_takes_edges(game: GameView, frames: Seq<Frame>, k: int)
    requires
        0 <= k < frames.len(),
    ensures
        run(game, frames.take(k + 1)).state == next_state(
            run(game, frames.take(k)),
            frames[k].input,
        ),
        allowed_transition(run(game, frames.take(k)).state, run(game, frames.take(k + 1)).state),
{
    let upto = frames.take(k + 1);
    assert(upto.drop_last() =~= frames.take(k));
    assert(upto.last() == frames[k]);
    law_state_closure(run(game, frames.take(k)), frames[k].input, frames[k].draws);
}

/// The course rests outside play. After every frame of a run that is not
/// played, the scroll speed is zero.
pub proof fn law_speed_zero_outside_playing(game: GameView, frames: Seq<Frame>)
    requires
        game.wf(),
        frames_fit(game, frames),
    ensures
        run(game, frames).state != GameState::Playing ==> run(
            game,
            frames,
        ).scene_settings.pipe_speed == 0,
{
    lemma_run_wf(game, frames);
}

/// The score within a frame. The high score never falls. The current score
/// falls in one frame only, the one that takes a resting run back to
/// waiting, and a waiting run has no points.
pub proof fn law_score_in_frame(game: GameView, input: FrameInput, draws: Seq<i64>)
    requires
        game.wf(),
        draws_in_band(game.scene_settings, draws, game.pipes.len()),
    ensures
        frame(game, input, draws).score_info.high_score >= game.score_info.high_score,
        frame(game, input, draws).score_info.current_score < game.score_info.current_score ==> {
            &&& game.state == GameState::Dead
            &&& frame(game, input, draws).state == GameState::Ready
        },
        frame(game, input, draws).state == GameState::Ready ==> frame(
            game,
            input,
            draws,
        ).score_info.current_score == 0,
{
    lemma_frame_wf(game, input, draws);
    match input.body {
        None => {},
        Some(body) => {
            let ahead = before_scoring(game, input, body, draws);
            lemma_passes_monotone(ahead.score_info, crossings(ahead.pipes));
        },
    }
}

/// The high score over a run. However long a run is played, through
/// however many episodes, its high score is never below what it was.
pub proof fn law_high_score_never_falls(game: GameView, frames: Seq<Frame>)
    requires
        game.wf(),
        frames_fit(game, frames),
    ensures
        run(game, frames).score_info.high_score >= game.score_info.high_score,
    decreases frames.len(),
{
    if frames.len() > 0 {
        let earlier = frames.drop_last();
        assert forall|k: int| 0 <= k < earlier.len() implies draws_in_band(
            game.scene_settings,
            (#[trigger] earlier[k]).draws,
            game.pipes.len(),
        ) by {
            assert(earlier[k] == frames[k]);
        }
        law_high_score_never_falls(game, earlier);
        lemma_run_wf(game, earlier);
        law_score_in_frame(run(game, earlier), frames.last().input, frames.last().draws);
    }
}

/// The pool keeps its size. However many obstacles are recycled in a run,
/// there are as many at its end as at its start.
pub proof fn law_pool_size_kept(game: GameView, frames: Seq<Frame>)
    requires
        game.wf(),
        frames_fit(game, frames),
    ensures
        run(game, frames).pipes.len() == game.pipes.len(),
{
    lemma_run_wf(game, frames);
}

/// Where a recycled obstacle goes. An obstacle that has left the view is
/// put `pool - 2` gaps in front of the player, at a height between
/// `-pipe_offset` and `pipe_spread - pipe_offset`; it keeps its depth and its
/// flag. An obstacle that has not left the view stays as it is.
pub proof fn law_recycled_position(pipe: PipePair, settings: SceneSettings, pool: nat, draw: i64)
    requires
        settings.wf(),
        pool <= MAX_PIPES,
        draw_in_band(settings, draw),
    ensures
        is_out_of_view(pipe, settings) ==> {
            let after = recycled_pipe(pipe, settings, pool, draw);
            &&& after.position.x == settings.pipe_gap_x * (pool - 2)
            &&& -settings.pipe_offset <= after.position.y <= settings.pipe_spread
                - settings.pipe_offset
            &&& after.position.z == pipe.position.z
            &&& after.scored == pipe.scored
        },
        !is_out_of_view(pipe, settings) ==> recycled_pipe(pipe, settings, pool, draw) == pipe,
{
    assert(-2 * MAX_SPAN <= settings.pipe_gap_x * (pool - 2) <= MAX_SPAN * MAX_PIPES)
        by (nonlinear_arith)
        requires
            0 <= pool <= MAX_PIPES,
            0 <= settings.pipe_gap_x <= MAX_SPAN,
    ;
}

/// The run just before frame `k` of `frames`.
pub open spec fn run_before(game: GameView, frames: Seq<Frame>, k: int) -> GameView {
    run(game, frames.take(k))
}

/// Whether obstacle `i` counts in the frame `next` of `game`.
pub open spec fn counts_in(game: GameView, next: Frame, i: int) -> bool {
    match next.input.body {
        None => false,
        Some(body) => crosses(before_scoring(game, next.input, body, next.draws).pipes[i]),
    }
}

/// Whether obstacle `i` becomes countable again in the frame `next` of
/// `game`: its flag is cleared because it stands beyond the rearm distance.
pub open spec fn rearms_in(game: GameView, next: Frame, i: int) -> bool {
    match next.input.body {
        None => false,
        Some(body) => rearms(
            before_scoring(game, next.input, body, next.draws).pipes[i],
            game.scene_settings,
        ),
    }
}

/// Whether the frame `next` of `game` lays the level out anew, which
/// replaces every obstacle by a fresh one.
pub open spec fn relays_in(game: GameView, next: Frame) -> bool {
    next.input.body.is_some() && game.state == GameState::Dead && rest_is_over(
        game,
        next.input.delta,
    )
}

/// Whether frame `k` of a run clears the flag of obstacle `i`.
pub open spec fn clears_in(game: GameView, frames: Seq<Frame>, k: int, i: int) -> bool {
    rearms_in(run_before(game, frames, k), frames[k], i) || relays_in(
        run_before(game, frames, k),
        frames[k],
    )
}

/// The run before frame `k + 1` is the run before frame `k` after frame `k`,
/// and it is well formed with the setup it began with.
pub proof fn lemma_run_step(game: GameView, frames: Seq<Frame>, k: int)
    requires
        game.wf(),
        frames_fit(game, frames),
        0 <= k < frames.len(),
    ensures
        run_before(game, frames, k + 1) == frame(
            run_before(game, frames, k),
            frames[k].input,
            frames[k].draws,
        ),
        run_before(game, frames, k).wf(),
        same_setup(game, run_before(game, frames, k)),
        draws_in_band(
            run_before(game, frames, k).scene_settings,
            frames[k].draws,
            run_before(game, frames, k).pipes.len(),
        ),
{
    let upto = frames.take(k + 1);
    assert(upto.drop_last() =~= frames.take(k));
    assert(upto.last() == frames[k]);
    let earlier = frames.take(k);
    assert forall|m: int| 0 <= m < earlier.len() implies draws_in_band(
        game.scene_settings,
        (#[trigger] earlier[m]).draws,
        game.pipes.len(),
    ) by {
        assert(earlier[m] == frames[m]);
    }
    lemma_run_wf(game, earlier);
    let draws = frames[k].draws;
    assert(draws_in_band(game.scene_settings, draws, game.pipes.len()));
    assert forall|j: int| 0 <= j < draws.len() implies draw_in_band(
        run_before(game, frames, k).scene_settings,
        #[trigger] draws[j],
    ) by {
        assert(draw_in_band(game.scene_settings, draws[j]));
    }
}

/// The flag of an obstacle through one frame. An obstacle that counts in a
/// frame is flagged after it. An obstacle that is flagged before a frame
/// does not count in it, and stays flagged unless the frame rearms it or lays
/// the level out anew.
pub proof fn lemma_flag_in_frame(game: GameView, next: Frame, i: int)
    requires
        game.wf(),
        draws_in_band(game.scene_settings, next.draws, game.pipes.len()),
        0 <= i < game.pipes.len(),
    ensures
        counts_in(game, next, i) ==> frame(game, next.input, next.draws).pipes[i].scored,
        game.pipes[i].scored ==> !counts_in(game, next, i),
        game.pipes[i].scored && !rearms_in(game, next, i) && !relays_in(game, next) ==> frame(
            game,
            next.input,
            next.draws,
        ).pipes[i].scored,
{
    match next.input.body {
        None => {},
        Some(body) => {
            lemma_controlled_wf(game, next.input, body);
            let steered = controlled(with_body(game, body), next.input);
            lemma_scrolled_wf(steered, next.input.delta, next.draws);
            let ahead = before_scoring(game, next.input, body, next.draws);
            assert(ahead.scene_settings.rearm_distance == game.scene_settings.rearm_distance);
            if relays_in(game, next) {
                assert(0 <= i * game.scene_settings.pipe_gap_x <= MAX_PIPES * MAX_SPAN)
                    by (nonlinear_arith)
                    requires
                        0 <= i <= MAX_PIPES,
                        0 <= game.scene_settings.pipe_gap_x <= MAX_SPAN,
                ;
                assert(ahead.pipes[i].position.x >= 0);
            } else {
                assert(steered.pipes[i].scored == game.pipes[i].scored);
                assert(ahead.pipes[i].scored == game.pipes[i].scored);
            }
        },
    }
}

/// An obstacle that counts in frame `first` of a run is flagged after every
/// later frame up to `last`, as long as none of them clears its flag.
pub proof fn lemma_flag_stays(game: GameView, frames: Seq<Frame>, i: int, first: int, last: int)
    requires
        game.wf(),
        frames_fit(game, frames),
        0 <= i < game.pipes.len(),
        0 <= first <= last < frames.len(),
        counts_in(run_before(game, frames, first), frames[first], i),
        forall|k: int| first < k <= last ==> !#[trigger] clears_in(game, frames, k, i),
    ensures
        run_before(game, frames, last + 1).pipes[i].scored,
    decreases last - first,
{
    lemma_run_step(game, frames, last);
    lemma_flag_in_frame(run_before(game, frames, last), frames[last], i);
    if first < last {
        lemma_flag_stays(game, frames, i, first, last - 1);
        assert(!clears_in(game, frames, last, i));
    }
}

/// No double scoring. If one obstacle counts in two frames of a run, then
/// some frame between the two has cleared its flag: the obstacle stood
/// beyond the rearm distance at that frame's scoring pass, or the level was
/// laid out anew, which puts a fresh obstacle in its place.
pub proof fn law_no_double_scoring(
    game: GameView,
    frames: Seq<Frame>,
    i: int,
    first: int,
    second: int,
)
    requires
        game.wf(),
        frames_fit(game, frames),
        0 <= i < game.pipes.len(),
        0 <= first < second < frames.len(),
        counts_in(run_before(game, frames, first), frames[first], i),
        counts_in(run_before(game, frames, second), frames[second], i),
    ensures
        exists|k: int| first < k < second && #[trigger] clears_in(game, frames, k, i),
{
    if forall|k: int| first < k < second ==> !#[trigger] clears_in(game, frames, k, i) {
        lemma_flag_stays(game, frames, i, first, second - 1);
        lemma_run_step(game, frames, second);
        lemma_flag_in_frame(run_before(game, frames, second), frames[second], i);
        assert(false);
    }
}

/// The scoring pass and the flag. An obstacle that counts is flagged by the
/// pass, a flagged obstacle does not count, and the pass clears a flag only
/// of an obstacle that stands beyond the rearm distance.
pub proof fn law_scoring_pass_flags(pipe: PipePair, settings: SceneSettings)
    ensures
        crosses(pipe) ==> marked_pipe(pipe, settings).scored,
        pipe.scored ==> !crosses(pipe),
        pipe.scored && !marked_pipe(pipe, settings).scored ==> pipe.position.x
            > settings.rearm_distance,
        marked_pipe(pipe, settings).position == pipe.position,
{
}

} // verus!
