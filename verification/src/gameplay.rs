//! The run controller: what happens to a run in one frame.
//!
//! A frame is worked off in a fixed order. First the controller itself:
//! while playing, the speed ramp, then the collision check, then the fall
//! check, then the jump. Then the course, if the run was played before the
//! frame and still is: every obstacle scrolls, and those that have left the
//! view are recycled. Last the scoring pass, in every state.

use vstd::prelude::*;
use bevy_turborand::GlobalRng;
use crate::player::{
    all_axes_locked, axes_for, flight_axes, jump, player_after_impulse, player_at_spawn,
    JumpedEvent, LockedAxes, Player, PlayerSettings, Vector3,
};
use crate::scene::{
    course_in_range, draws_in_band, initial_course, is_course_in_range, is_initial_course,
    move_pipes, moved_pipes, recycle_pipes, recycle_pipes_with, recycled_pipes, spawn_level,
    PipePair, SceneSettings, MAX_COORD, MAX_PIPES, MAX_SPAN, MAX_SPEED,
};
use crate::score::{score_after_passes, score_at_reset, ScoreInfo, ScoredEvent};
use crate::scoring::{crossings, lemma_no_crossings, marked_pipes, scoring};
use crate::speed::{ramp_up_speed, ramped_speed, speed_at, SpeedRamp};
use crate::state::{check_for_game_start, GameState};

verus! {

/// What the physics reports of the player body in one frame.
#[derive(Clone, Copy, Debug, PartialEq, Eq, Structural)]
pub struct BodySample {
    pub position: Vector3,
    pub velocity: Vector3,
}

/// What the collaborators hand in for one frame.
#[derive(Clone, Copy, Debug)]
pub struct FrameInput {
    /// The length of the frame in ticks.
    pub delta: u32,
    /// Whether the jump input has become active in this frame.
    pub jump_pressed: bool,
    /// Whether the player has hit an obstacle in this frame.
    pub collided: bool,
    /// The player body, or `None` while there is none yet.
    pub body: Option<BodySample>,
}

/// What one frame hands back to the collaborators.
#[derive(Debug)]
pub struct FrameOutput {
    /// One event for each upward impulse of this frame.
    pub jumped: Vec<JumpedEvent>,
    /// One event for each obstacle counted in this frame.
    pub scored: Vec<ScoredEvent>,
    /// The score to store, in the frame in which the player dies.
    pub saved: Option<ScoreInfo>,
    /// Whether the level was laid out anew in this frame.
    pub level_reset: bool,
    /// Whether the player is to be put at the spawn point in its initial
    /// orientation: after every frame that leaves the run waiting.
    pub pose_reset: bool,
}

/// Why a run cannot be set up.
#[derive(Clone, Copy, Debug, PartialEq, Eq, Structural)]
pub enum SettingsError {
    /// The scene settings are beyond what a course accepts.
    Scene,
    /// The speed ramp does not lead from a base speed up to a ceiling.
    Ramp,
}

/// A run: its state, its settings, the player and the course.
#[derive(Debug)]
pub struct Game {
    pub state: GameState,
    pub score_info: ScoreInfo,
    pub scene_settings: SceneSettings,
    pub player_settings: PlayerSettings,
    pub speed_ramp: SpeedRamp,
    /// How many ticks the scene rests after a crash.
    pub dead_delay: u64,
    /// How many ticks the scene has rested since the crash.
    pub dead_ticks: u64,
    pub player: Player,
    pub pipes: Vec<PipePair>,
}

/// A run as a mathematical value: as `Game`, with the course as a sequence.
pub struct GameView {
    pub state: GameState,
    pub score_info: ScoreInfo,
    pub scene_settings: SceneSettings,
    pub player_settings: PlayerSettings,
    pub speed_ramp: SpeedRamp,
    pub dead_delay: u64,
    pub dead_ticks: u64,
    pub player: Player,
    pub pipes: Seq<PipePair>,
}

impl View for Game {
    type V = GameView;

    open spec fn view(&self) -> GameView {
        GameView {
            state: self.state,
            score_info: self.score_info,
            scene_settings: self.scene_settings,
            player_settings: self.player_settings,
            speed_ramp: self.speed_ramp,
            dead_delay: self.dead_delay,
            dead_ticks: self.dead_ticks,
            player: self.player,
            pipes: self.pipes@,
        }
    }
}

impl GameView {
    /// The runs that the controller keeps to. The settings are within
    /// their limits and the pool has its size. The course moves only while
    /// the run is played, and then between the base speed and the ceiling.
    /// The axis policy is the one of the state. A waiting run shows the
    /// starting layout, has no points, and has its player at the spawn point.
    pub open spec fn wf(self) -> bool {
        &&& self.scene_settings.wf()
        &&& self.speed_ramp.wf()
        &&& self.pipes.len() == self.scene_settings.pipe_count
        &&& course_in_range(self.pipes)
        &&& self.state != GameState::Playing ==> self.scene_settings.pipe_speed == 0
        &&& self.state == GameState::Playing ==> self.speed_ramp.base_speed
            <= self.scene_settings.pipe_speed <= self.speed_ramp.max_speed
        &&& self.player.locked_axes == axes_for(self.state)
        &&& self.state == GameState::Ready ==> {
            &&& self.pipes == initial_course(self.scene_settings)
            &&& self.score_info.current_score == 0
            &&& self.player == player_at_spawn(self.player_settings)
        }
    }
}

/// `settings` with the course at rest.
pub open spec fn stopped_settings(settings: SceneSettings) -> SceneSettings {
    SceneSettings { pipe_speed: 0, ..settings }
}

/// `settings` with the course at the speed of the first frame of a run.
pub open spec fn started_settings(settings: SceneSettings, ramp: SpeedRamp) -> SceneSettings {
    SceneSettings { pipe_speed: speed_at(ramp, 0) as i64, ..settings }
}

/// `settings` one frame of `delta` ticks of play later.
pub open spec fn ramped_settings(settings: SceneSettings, ramp: SpeedRamp, delta: u32)
    -> SceneSettings {
    SceneSettings {
        pipe_speed: ramped_speed(ramp, settings.pipe_speed as int, delta as nat) as i64,
        ..settings
    }
}

/// `player` as a run starts: released into flight, with the impulse of a
/// jump, since the jump edge has been used up by the start.
pub open spec fn started_player(player: Player, settings: PlayerSettings) -> Player {
    player_after_impulse(Player { locked_axes: flight_axes(), ..player }, settings)
}

/// `player` frozen where it is.
pub open spec fn frozen_player(player: Player) -> Player {
    Player { locked_axes: all_axes_locked(), ..player }
}

/// Whether the player has fallen off the world.
pub open spec fn has_fallen(player: Player, settings: PlayerSettings) -> bool {
    player.position.y < settings.floor_y
}

/// Begins a run: the course takes up its starting speed, the score of the
/// episode is zero, and the player is released with the impulse of a jump,
/// which is reported.
pub fn start_game(
    scene_settings: &mut SceneSettings,
    speed_ramp: &SpeedRamp,
    score_info: &mut ScoreInfo,
    player: &mut Player,
    player_settings: &PlayerSettings,
) -> (event: JumpedEvent)
    ensures
        *final(scene_settings) == started_settings(*old(scene_settings), *speed_ramp),
        *final(score_info) == score_at_reset(*old(score_info)),
        *final(player) == started_player(*old(player), *player_settings),
{
    scene_settings.pipe_speed = speed_ramp.starting_speed();
    score_info.reset_current();
    player.locked_axes = LockedAxes::flight();
    player.velocity.y = player_settings.jump_velocity;
    JumpedEvent
}

/// The collision check. A collision while playing ends the run at once: the
/// course stops and the player is frozen where it is. Otherwise nothing
/// changes.
pub fn check_for_collisions(
    state: GameState,
    collided: bool,
    scene_settings: &mut SceneSettings,
    player: &mut Player,
) -> (next: GameState)
    ensures
        next == if state == GameState::Playing && collided {
            GameState::Dead
        } else {
            state
        },
        *final(scene_settings) == if state == GameState::Playing && collided {
            stopped_settings(*old(scene_settings))
        } else {
            *old(scene_settings)
        },
        *final(player) == if state == GameState::Playing && collided {
            frozen_player(*old(player))
        } else {
            *old(player)
        },
{
    match state {
        GameState::Playing => {
            if collided {
                scene_settings.pipe_speed = 0;
                player.locked_axes = LockedAxes::all_locked();
                GameState::Dead
            } else {
                GameState::Playing
            }
        },
        GameState::Ready => GameState::Ready,
        GameState::Dead => GameState::Dead,
    }
}

/// The fall check. A player that is below the floor while playing ends the
/// run as a collision does. Otherwise nothing changes.
pub fn check_for_fall(
    state: GameState,
    scene_settings: &mut SceneSettings,
    player: &mut Player,
    player_settings: &PlayerSettings,
) -> (next: GameState)
    ensures
        next == if state == GameState::Playing && has_fallen(*old(player), *player_settings) {
            GameState::Dead
        } else {
            state
        },
        *final(scene_settings) == if state == GameState::Playing && has_fallen(
            *old(player),
            *player_settings,
        ) {
            stopped_settings(*old(scene_settings))
        } else {
            *old(scene_settings)
        },
        *final(player) == if state == GameState::Playing && has_fallen(
            *old(player),
            *player_settings,
        ) {
            frozen_player(*old(player))
        } else {
            *old(player)
        },
{
    match state {
        GameState::Playing => {
            if player.is_out_of_bounds(player_settings) {
                scene_settings.pipe_speed = 0;
                player.locked_axes = LockedAxes::all_locked();
                GameState::Dead
            } else {
                GameState::Playing
            }
        },
        GameState::Ready => GameState::Ready,
        GameState::Dead => GameState::Dead,
    }
}

/// Ends the rest after a crash: the player goes back to the spawn point, the
/// course is laid out as a level starts, the score of the episode is zero,
/// and the run waits.
pub fn end_game(
    player: &mut Player,
    player_settings: &PlayerSettings,
    pipes: &mut Vec<PipePair>,
    scene_settings: &SceneSettings,
    score_info: &mut ScoreInfo,
) -> (next: GameState)
    requires
        scene_settings.wf(),
    ensures
        next == GameState::Ready,
        *final(player) == player_at_spawn(*player_settings),
        final(pipes)@ == initial_course(*scene_settings),
        *final(score_info) == score_at_reset(*old(score_info)),
{
    *player = Player::spawn(player_settings);
    *pipes = spawn_level(scene_settings);
    score_info.reset_current();
    GameState::Ready
}

/// `game` with the player body as the physics reports it.
pub open spec fn with_body(game: GameView, body: BodySample) -> GameView {
    GameView {
        player: Player { position: body.position, velocity: body.velocity, ..game.player },
        ..game
    }
}

/// A waiting run after a frame without a jump: the course at rest and the
/// player pinned to the spawn point.
pub open spec fn waiting(game: GameView) -> GameView {
    GameView {
        scene_settings: stopped_settings(game.scene_settings),
        player: player_at_spawn(game.player_settings),
        ..game
    }
}

/// A waiting run after the jump that starts it.
pub open spec fn started(game: GameView) -> GameView {
    GameView {
        state: GameState::Playing,
        scene_settings: started_settings(game.scene_settings, game.speed_ramp),
        score_info: score_at_reset(game.score_info),
        player: started_player(game.player, game.player_settings),
        ..game
    }
}

/// A played run after the speed ramp of a frame of `delta` ticks.
pub open spec fn ramped(game: GameView, delta: u32) -> GameView {
    GameView {
        scene_settings: ramped_settings(game.scene_settings, game.speed_ramp, delta),
        ..game
    }
}

/// A played run after the frame in which the player dies: the course at
/// rest, the player frozen, the rest about to begin.
pub open spec fn crashed(game: GameView) -> GameView {
    GameView {
        state: GameState::Dead,
        scene_settings: stopped_settings(game.scene_settings),
        player: frozen_player(game.player),
        dead_ticks: 0,
        ..game
    }
}

/// A resting run after a frame of `delta` ticks that does not end the rest.
pub open spec fn rested(game: GameView, delta: u32) -> GameView {
    GameView { dead_ticks: (game.dead_ticks + delta) as u64, ..game }
}

/// A resting run after the frame that ends the rest: a waiting run with the
/// starting layout, no points, and the player at the spawn point.
pub open spec fn reset(game: GameView) -> GameView {
    GameView {
        state: GameState::Ready,
        score_info: score_at_reset(game.score_info),
        player: player_at_spawn(game.player_settings),
        pipes: initial_course(game.scene_settings),
        dead_ticks: 0,
        ..game
    }
}

/// Whether the player dies in this frame: it has hit an obstacle or has
/// fallen off the world.
pub open spec fn player_dies(game: GameView, input: FrameInput) -> bool {
    input.collided || has_fallen(game.player, game.player_settings)
}

/// Whether a frame of `delta` ticks ends the rest after a crash.
pub open spec fn rest_is_over(game: GameView, delta: u32) -> bool {
    game.dead_ticks + delta >= game.dead_delay
}

/// The run after the controller's part of a frame.
pub open spec fn controlled(game: GameView, input: FrameInput) -> GameView {
    match game.state {
        GameState::Ready => if input.jump_pressed {
            started(game)
        } else {
            waiting(game)
        },
        GameState::Playing => if player_dies(game, input) {
            crashed(game)
        } else if input.jump_pressed {
            GameView {
                player: player_after_impulse(game.player, game.player_settings),
                ..ramped(game, input.delta)
            }
        } else {
            ramped(game, input.delta)
        },
        GameState::Dead => if rest_is_over(game, input.delta) {
            reset(game)
        } else {
            rested(game, input.delta)
        },
    }
}

/// Whether the controller's part of a frame gives the player an upward
/// impulse: the jump that starts a run, or a jump of a player that plays on.
pub open spec fn control_jumps(game: GameView, input: FrameInput) -> bool {
    input.jump_pressed && (game.state == GameState::Ready || (game.state == GameState::Playing
        && !player_dies(game, input)))
}

/// The run after the course's part of a frame of `delta` ticks: while the
/// run is played every obstacle scrolls and is then put through the recycle
/// check; in any other state the course stays as it is.
pub open spec fn scrolled(game: GameView, delta: u32, draws: Seq<i64>) -> GameView {
    if game.state == GameState::Playing {
        GameView {
            pipes: recycled_pipes(
                moved_pipes(game.pipes, game.scene_settings.pipe_speed * delta),
                game.scene_settings,
                draws,
            ),
            ..game
        }
    } else {
        game
    }
}

/// The run after the scoring pass.
pub open spec fn scored(game: GameView) -> GameView {
    GameView {
        pipes: marked_pipes(game.pipes, game.scene_settings),
        score_info: score_after_passes(game.score_info, crossings(game.pipes)),
        ..game
    }
}

/// The run just before the scoring pass of a frame in which the player
/// body is `body`. The course scrolls in the frames that a run is played
/// through: the frame that starts a run is over before any time has been
/// played, and the frame that ends it stops the course.
pub open spec fn before_scoring(
    game: GameView,
    input: FrameInput,
    body: BodySample,
    draws: Seq<i64>,
) -> GameView {
    let steered = controlled(with_body(game, body), input);
    if game.state == GameState::Playing {
        scrolled(steered, input.delta, draws)
    } else {
        steered
    }
}

/// The run after one frame, where slot `i` of the course uses `draws[i]` if
/// it is recycled. A frame without a player body leaves the run untouched.
pub open spec fn frame(game: GameView, input: FrameInput, draws: Seq<i64>) -> GameView {
    match input.body {
        None => game,
        Some(body) => scored(before_scoring(game, input, body, draws)),
    }
}

/// What a frame hands back: the events, the score to store, whether the
/// level was laid out anew, and whether the player's pose is to be reset.
pub open spec fn output_of_frame(
    out: FrameOutput,
    game: GameView,
    input: FrameInput,
    draws: Seq<i64>,
) -> bool {
    match input.body {
        None => {
            &&& out.jumped@.len() == 0
            &&& out.scored@.len() == 0
            &&& out.saved.is_none()
            &&& !out.level_reset
            &&& !out.pose_reset
        },
        Some(body) => {
            let synced = with_body(game, body);
            &&& out.jumped@.len() == if control_jumps(synced, input) {
                1nat
            } else {
                0nat
            }
            &&& out.scored@.len() == crossings(before_scoring(game, input, body, draws).pipes)
            &&& out.saved == if game.state == GameState::Playing && player_dies(synced, input) {
                Some(frame(game, input, draws).score_info)
            } else {
                None
            }
            &&& out.level_reset == (game.state == GameState::Dead && rest_is_over(
                synced,
                input.delta,
            ))
            &&& out.pose_reset == (frame(game, input, draws).state == GameState::Ready)
        },
    }
}

/// Whether `after` is what one frame can make of `before`, and `out` what
/// it hands back, with some allowed draws.
pub open spec fn is_frame_of(
    before: GameView,
    input: FrameInput,
    after: GameView,
    out: FrameOutput,
) -> bool {
    exists|draws: Seq<i64>|
        #![trigger frame(before, input, draws)]
        draws_in_band(before.scene_settings, draws, before.pipes.len()) && after == frame(
            before,
            input,
            draws,
        ) && output_of_frame(out, before, input, draws)
}

/// The controller's part of a frame keeps a run well formed, whatever the
/// physics reports of the player body.
pub proof fn lemma_controlled_wf(game: GameView, input: FrameInput, body: BodySample)
    requires
        game.wf(),
    ensures
        controlled(with_body(game, body), input).wf(),
        controlled(with_body(game, body), input).pipes.len() == game.pipes.len(),
{
    let synced = with_body(game, body);
    let next = controlled(synced, input);
    if game.state == GameState::Ready && !input.jump_pressed {
        assert(next.pipes == game.pipes);
    }
    if game.state == GameState::Dead && rest_is_over(synced, input.delta) {
        lemma_initial_course(game.scene_settings);
    }
}

/// The starting layout is within reach of the arithmetic, none of its
/// obstacles counts, and the scoring pass leaves it as it is.
pub proof fn lemma_initial_course(settings: SceneSettings)
    requires
        settings.wf(),
    ensures
        course_in_range(initial_course(settings)),
        crossings(initial_course(settings)) == 0,
        marked_pipes(initial_course(settings), settings) == initial_course(settings),
{
    let course = initial_course(settings);
    assert forall|i: int| 0 <= i < course.len() implies 0 <= (#[trigger] course[i]).position.x
        <= MAX_COORD by {
        assert(0 <= i * settings.pipe_gap_x <= MAX_PIPES * MAX_SPAN) by (nonlinear_arith)
            requires
                0 <= i <= MAX_PIPES,
                0 <= settings.pipe_gap_x <= MAX_SPAN,
        ;
    }
    lemma_no_crossings(course);
    assert(marked_pipes(course, settings) =~= course);
}

/// The course's part of a frame keeps a run well formed.
pub proof fn lemma_scrolled_wf(game: GameView, delta: u32, draws: Seq<i64>)
    requires
        game.wf(),
        draws_in_band(game.scene_settings, draws, game.pipes.len()),
    ensures
        scrolled(game, delta, draws).wf(),
        scrolled(game, delta, draws).pipes.len() == game.pipes.len(),
{
    if game.state == GameState::Playing {
        let settings = game.scene_settings;
        let distance = settings.pipe_speed * delta;
        assert(0 <= distance <= MAX_SPEED * 0x1_0000_0000) by (nonlinear_arith)
            requires
                distance == settings.pipe_speed * delta,
                0 <= settings.pipe_speed <= MAX_SPEED,
                0 <= delta < 0x1_0000_0000,
        ;
        let pool = game.pipes.len();
        assert(-2 * MAX_SPAN <= settings.pipe_gap_x * (pool - 2) <= MAX_SPAN * MAX_PIPES)
            by (nonlinear_arith)
            requires
                0 <= pool <= MAX_PIPES,
                0 <= settings.pipe_gap_x <= MAX_SPAN,
        ;
        let next = scrolled(game, delta, draws).pipes;
        assert forall|i: int| 0 <= i < next.len() implies -MAX_COORD <= (
        #[trigger] next[i]).position.x <= MAX_COORD by {
            let was = game.pipes[i];
            assert(-MAX_COORD <= was.position.x <= MAX_COORD);
        }
    }
}

/// The scoring pass keeps a run well formed.
pub proof fn lemma_scored_wf(game: GameView)
    requires
        game.wf(),
    ensures
        scored(game).wf(),
        scored(game).pipes.len() == game.pipes.len(),
{
    let next = scored(game);
    assert forall|i: int| 0 <= i < next.pipes.len() implies -MAX_COORD <= (
    #[trigger] next.pipes[i]).position.x <= MAX_COORD by {
        assert(next.pipes[i].position == game.pipes[i].position);
    }
    if game.state == GameState::Ready {
        lemma_initial_course(game.scene_settings);
    }
}

impl Game {
    /// The runs that the controller keeps to.
    pub open spec fn wf(&self) -> bool {
        self@.wf()
    }

    /// Whether the run is well formed.
    pub fn is_valid(&self) -> (valid: bool)
        ensures
            valid == self.wf(),
    {
        if !self.scene_settings.is_valid() || !self.speed_ramp.is_valid() {
            return false;
        }
        if self.pipes.len() != self.scene_settings.pipe_count || !is_course_in_range(&self.pipes) {
            return false;
        }
        let speed = self.scene_settings.pipe_speed;
        match self.state {
            GameState::Ready => speed == 0 && self.player == Player::spawn(&self.player_settings)
                && self.score_info.current_score == 0 && is_initial_course(
                &self.pipes,
                &self.scene_settings,
            ),
            GameState::Playing => self.speed_ramp.base_speed <= speed && speed
                <= self.speed_ramp.max_speed && self.player.locked_axes == LockedAxes::flight(),
            GameState::Dead => speed == 0 && self.player.locked_axes == LockedAxes::all_locked(),
        }
    }

    /// Sets up a waiting run: the course laid out as a level starts and at
    /// rest, the player at the spawn point, no points, and the high score
    /// that was stored, if any. Settings beyond the limits are refused, the
    /// scene settings first.
    pub fn new(
        scene_settings: SceneSettings,
        player_settings: PlayerSettings,
        speed_ramp: SpeedRamp,
        dead_delay: u64,
        saved: Option<ScoreInfo>,
    ) -> (made: Result<Game, SettingsError>)
        ensures
            !scene_settings.wf() ==> made == Err::<Game, SettingsError>(SettingsError::Scene),
            scene_settings.wf() && !speed_ramp.wf() ==> made == Err::<Game, SettingsError>(
                SettingsError::Ramp,
            ),
            scene_settings.wf() && speed_ramp.wf() ==> made.is_ok() && made.unwrap()@
                == (GameView {
                state: GameState::Ready,
                score_info: ScoreInfo {
                    current_score: 0,
                    high_score: match saved {
                        Some(stored) => stored.high_score,
                        None => 0u32,
                    },
                },
                scene_settings: stopped_settings(scene_settings),
                player_settings,
                speed_ramp,
                dead_delay,
                dead_ticks: 0,
                player: player_at_spawn(player_settings),
                pipes: initial_course(stopped_settings(scene_settings)),
            }),
            made.is_ok() ==> made.unwrap().wf(),
    {
        if !scene_settings.is_valid() {
            return Err(SettingsError::Scene);
        }
        if !speed_ramp.is_valid() {
            return Err(SettingsError::Ramp);
        }
        let mut settings = scene_settings;
        settings.pipe_speed = 0;
        let pipes = spawn_level(&settings);
        let game = Game {
            state: GameState::Ready,
            score_info: crate::score::load_high_score(saved),
            scene_settings: settings,
            player_settings,
            speed_ramp,
            dead_delay,
            dead_ticks: 0,
            player: Player::spawn(&player_settings),
            pipes,
        };
        Ok(game)
    }

    /// The controller's part of a frame in which the player body is `body`.
    /// Returns the jump of this frame, if there is one.
    pub fn control(&mut self, input: &FrameInput, body: BodySample) -> (jumped: Option<
        JumpedEvent,
    >)
        requires
            old(self).wf(),
        ensures
            final(self)@ == controlled(with_body(old(self)@, body), *input),
            jumped.is_some() == control_jumps(with_body(old(self)@, body), *input),
            final(self).wf(),
    {
        proof {
            lemma_controlled_wf(self@, *input, body);
        }
        self.player.position = body.position;
        self.player.velocity = body.velocity;
        match self.state {
            GameState::Ready => {
                match check_for_game_start(self.state, input.jump_pressed) {
                    GameState::Playing => {
                        let event = start_game(
                            &mut self.scene_settings,
                            &self.speed_ramp,
                            &mut self.score_info,
                            &mut self.player,
                            &self.player_settings,
                        );
                        self.state = GameState::Playing;
                        Some(event)
                    },
                    _ => {
                        self.scene_settings.pipe_speed = 0;
                        self.player = Player::spawn(&self.player_settings);
                        None
                    },
                }
            },
            GameState::Playing => {
                ramp_up_speed(&mut self.scene_settings, &self.speed_ramp, input.delta);
                let after_hit = check_for_collisions(
                    self.state,
                    input.collided,
                    &mut self.scene_settings,
                    &mut self.player,
                );
                let after_fall = check_for_fall(
                    after_hit,
                    &mut self.scene_settings,
                    &mut self.player,
                    &self.player_settings,
                );
                match after_fall {
                    GameState::Dead => {
                        self.state = GameState::Dead;
                        self.dead_ticks = 0;
                    },
                    _ => {},
                }
                jump(after_fall, input.jump_pressed, &mut self.player, &self.player_settings)
            },
            GameState::Dead => {
                if self.dead_ticks >= self.dead_delay || (input.delta as u64) >= self.dead_delay
                    - self.dead_ticks {
                    self.state = end_game(
                        &mut self.player,
                        &self.player_settings,
                        &mut self.pipes,
                        &self.scene_settings,
                        &mut self.score_info,
                    );
                    self.dead_ticks = 0;
                } else {
                    self.dead_ticks = self.dead_ticks + (input.delta as u64);
                }
                None
            },
        }
    }

    /// The course's part of a frame with given draws.
    pub fn scroll_with(&mut self, delta: u32, draws: &Vec<i64>)
        requires
            old(self).wf(),
            draws_in_band(old(self).scene_settings, draws@, old(self).pipes@.len()),
        ensures
            final(self)@ == scrolled(old(self)@, delta, draws@),
            final(self).wf(),
    {
        proof {
            lemma_scrolled_wf(self@, delta, draws@);
        }
        match self.state {
            GameState::Playing => {
                move_pipes(&mut self.pipes, &self.scene_settings, delta);
                recycle_pipes_with(&mut self.pipes, &self.scene_settings, draws);
            },
            _ => {},
        }
    }

    /// The course's part of a frame with fresh draws from `rng`.
    pub fn scroll(&mut self, delta: u32, rng: &mut GlobalRng)
        requires
            old(self).wf(),
        ensures
            exists|draws: Seq<i64>|
                #![trigger scrolled(old(self)@, delta, draws)]
                draws_in_band(old(self).scene_settings, draws, old(self).pipes@.len())
                    && final(self)@ == scrolled(old(self)@, delta, draws),
            final(self).wf(),
    {
        match self.state {
            GameState::Playing => {
                move_pipes(&mut self.pipes, &self.scene_settings, delta);
                let ghost moved = self.pipes@;
                recycle_pipes(&mut self.pipes, &self.scene_settings, rng);
                proof {
                    let draws = choose|draws: Seq<i64>|
                        #![trigger recycled_pipes(moved, self.scene_settings, draws)]
                        draws_in_band(self.scene_settings, draws, moved.len()) && self.pipes@
                            == recycled_pipes(moved, self.scene_settings, draws);
                    assert(self@ == scrolled(old(self)@, delta, draws));
                    lemma_scrolled_wf(old(self)@, delta, draws);
                }
            },
            _ => {
                proof {
                    let draws = Seq::new(self.pipes@.len(), |i: int| 0i64);
                    assert(draws_in_band(self.scene_settings, draws, self.pipes@.len()));
                    assert(self@ == scrolled(old(self)@, delta, draws));
                }
            },
        }
    }

    /// The scoring pass of a frame. Returns one event for each obstacle
    /// that counts.
    pub fn score(&mut self) -> (events: Vec<ScoredEvent>)
        requires
            old(self).wf(),
        ensures
            final(self)@ == scored(old(self)@),
            events@.len() == crossings(old(self).pipes@),
            final(self).wf(),
    {
        proof {
            lemma_scored_wf(self@);
        }
        scoring(&mut self.pipes, &self.scene_settings, &mut self.score_info)
    }

    /// One frame with given draws: slot `i` of the course uses `draws[i]`
    /// if it is recycled.
    pub fn update_with(&mut self, input: &FrameInput, draws: &Vec<i64>) -> (out: FrameOutput)
        requires
            old(self).wf(),
            draws_in_band(old(self).scene_settings, draws@, old(self).pipes@.len()),
        ensures
            final(self)@ == frame(old(self)@, *input, draws@),
            output_of_frame(out, old(self)@, *input, draws@),
            final(self).wf(),
    {
        let mut out = FrameOutput {
            jumped: Vec::new(),
            scored: Vec::new(),
            saved: None,
            level_reset: false,
            pose_reset: false,
        };
        match input.body {
            None => {},
            Some(body) => {
                let was = self.state;
                match self.control(input, body) {
                    Some(event) => {
                        out.jumped.push(event);
                    },
                    None => {},
                }
                match was {
                    GameState::Playing => {
                        self.scroll_with(input.delta, draws);
                    },
                    _ => {},
                }
                out.scored = self.score();
                out.saved = saved_score(was, self.state, self.score_info);
                out.level_reset = level_was_reset(was, self.state);
                out.pose_reset = match self.state {
                    GameState::Ready => true,
                    _ => false,
                };
            },
        }
        out
    }

    /// One frame with fresh draws from `rng`: the controller's part, the
    /// course's part, the scoring pass.
    pub fn update(&mut self, input: &FrameInput, rng: &mut GlobalRng) -> (out: FrameOutput)
        requires
            old(self).wf(),
        ensures
            is_frame_of(old(self)@, *input, final(self)@, out),
            final(self).wf(),
    {
        let mut out = FrameOutput {
            jumped: Vec::new(),
            scored: Vec::new(),
            saved: None,
            level_reset: false,
            pose_reset: false,
        };
        match input.body {
            None => {
                proof {
                    let draws = Seq::new(self.pipes@.len(), |i: int| 0i64);
                    assert(draws_in_band(self.scene_settings, draws, self.pipes@.len()));
                    assert(self@ == frame(old(self)@, *input, draws));
                    assert(output_of_frame(out, old(self)@, *input, draws));
                }
            },
            Some(body) => {
                let was = self.state;
                match self.control(input, body) {
                    Some(event) => {
                        out.jumped.push(event);
                    },
                    None => {},
                }
                let ghost steered = self@;
                let ghost mut draws = Seq::new(self.pipes@.len(), |i: int| 0i64);
                proof {
                    lemma_controlled_wf(old(self)@, *input, body);
                }
                match was {
                    GameState::Playing => {
                        self.scroll(input.delta, rng);
                        proof {
                            draws = choose|draws: Seq<i64>|
                                #![trigger scrolled(steered, input.delta, draws)]
                                draws_in_band(steered.scene_settings, draws, steered.pipes.len())
                                    && self@ == scrolled(steered, input.delta, draws);
                        }
                    },
                    _ => {},
                }
                assert(draws_in_band(old(self).scene_settings, draws, old(self).pipes@.len()));
                assert(self@ == before_scoring(old(self)@, *input, body, draws));
                out.scored = self.score();
                out.saved = saved_score(was, self.state, self.score_info);
                out.level_reset = level_was_reset(was, self.state);
                out.pose_reset = match self.state {
                    GameState::Ready => true,
                    _ => false,
                };
                proof {
                    assert(self@ == frame(old(self)@, *input, draws));
                    assert(output_of_frame(out, old(self)@, *input, draws));
                }
            },
        }
        out
    }
}

/// The score to store at the end of a frame that led from `was` to `now`:
/// the score as it stands, if the player died in this frame.
pub fn saved_score(was: GameState, now: GameState, score_info: ScoreInfo) -> (saved: Option<
    ScoreInfo,
>)
    ensures
        saved == if was == GameState::Playing && now == GameState::Dead {
            Some(score_info)
        } else {
            None
        },
{
    match (was, now) {
        (GameState::Playing, GameState::Dead) => Some(score_info),
        _ => None,
    }
}

/// Whether a frame that led from `was` to `now` laid the level out anew.
pub fn level_was_reset(was: GameState, now: GameState) -> (reset: bool)
    ensures
        reset == (was == GameState::Dead && now == GameState::Ready),
{
    match (was, now) {
        (GameState::Dead, GameState::Ready) => true,
        _ => false,
    }
}

} // verus!
