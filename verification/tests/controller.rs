use bevy_turborand::GlobalRng;
use gate_runner::gameplay::{
    check_for_collisions, check_for_fall, end_game, level_was_reset, saved_score, start_game,
    BodySample, FrameInput, Game, SettingsError,
};
use gate_runner::player::{jump, JumpedEvent, LockedAxes, Player, PlayerSettings, Vector3};
use gate_runner::scene::{spawn_level, PipePair, SceneSettings, MAX_SPAN, MAX_SPEED};
use gate_runner::score::ScoreInfo;
use gate_runner::speed::SpeedRamp;
use gate_runner::state::{check_for_game_start, GameState};

fn scene() -> SceneSettings {
    SceneSettings {
        pipe_gap_x: 7000,
        pipe_gap_y: 3000,
        pipe_spread: 4000,
        pipe_offset: 2000,
        pipe_count: 5,
        rearm_distance: 1000,
        pipe_speed: 0,
    }
}

fn player_settings() -> PlayerSettings {
    PlayerSettings { initial_position: Vector3::new(0, 1000, 0), jump_velocity: 10, floor_y: -20000 }
}

fn ramp() -> SpeedRamp {
    SpeedRamp { base_speed: 5, max_speed: 8, ramp_rate: 1, hard_mode: false }
}

fn new_game() -> Game {
    Game::new(scene(), player_settings(), ramp(), 1000, None).unwrap()
}

fn input(jump_pressed: bool, collided: bool, y: i64) -> FrameInput {
    FrameInput {
        delta: 1,
        jump_pressed,
        collided,
        body: Some(BodySample { position: Vector3::new(3, y, 4), velocity: Vector3::new(1, -30, 2) }),
    }
}

fn playing_game(rng: &mut GlobalRng) -> Game {
    let mut game = new_game();
    game.update(&input(true, false, 1000), rng);
    assert_eq!(game.state, GameState::Playing);
    game
}

#[test]
fn new_game_waits_at_the_spawn_point() {
    let game = Game::new(
        SceneSettings { pipe_speed: 3, ..scene() },
        player_settings(),
        ramp(),
        1000,
        Some(ScoreInfo { current_score: 4, high_score: 12 }),
    )
    .unwrap();
    assert_eq!(game.state, GameState::Ready);
    assert_eq!(game.score_info, ScoreInfo { current_score: 0, high_score: 12 });
    assert_eq!(game.scene_settings, scene());
    assert_eq!(game.player_settings, player_settings());
    assert_eq!(game.speed_ramp, ramp());
    assert_eq!(game.dead_delay, 1000);
    assert_eq!(game.dead_ticks, 0);
    assert_eq!(game.player, Player::spawn(&player_settings()));
    assert_eq!(game.pipes, spawn_level(&scene()));
    assert!(game.is_valid());
}

#[test]
fn new_game_refuses_scene_settings_beyond_the_limits() {
    let bad = SceneSettings { pipe_gap_x: MAX_SPAN + 1, ..scene() };
    let made = Game::new(bad, player_settings(), ramp(), 1000, None);
    assert!(matches!(made, Err(SettingsError::Scene)));
}

#[test]
fn new_game_refuses_a_ramp_that_does_not_rise() {
    let bad = SpeedRamp { base_speed: 9, ..ramp() };
    let made = Game::new(scene(), player_settings(), bad, 1000, None);
    assert!(matches!(made, Err(SettingsError::Ramp)));
    let bad = SpeedRamp { max_speed: MAX_SPEED + 1, ..ramp() };
    assert!(matches!(Game::new(scene(), player_settings(), bad, 1000, None), Err(SettingsError::Ramp)));
}

#[test]
fn new_game_names_the_scene_settings_first() {
    let bad_scene = SceneSettings { pipe_spread: -1, ..scene() };
    let bad_ramp = SpeedRamp { ramp_rate: -1, ..ramp() };
    let made = Game::new(bad_scene, player_settings(), bad_ramp, 1000, None);
    assert!(matches!(made, Err(SettingsError::Scene)));
}

#[test]
fn waiting_run_pins_the_player_to_the_spawn_point() {
    let mut game = new_game();
    let mut rng = GlobalRng::with_seed(1);
    let out = game.update(&input(false, true, -99999), &mut rng);
    assert_eq!(game.state, GameState::Ready);
    assert_eq!(game.player, Player::spawn(&player_settings()));
    assert_eq!(game.scene_settings.pipe_speed, 0);
    assert_eq!(game.pipes, spawn_level(&scene()));
    assert!(out.pose_reset);
    assert!(out.jumped.is_empty());
    assert!(out.scored.is_empty());
    assert_eq!(out.saved, None);
    assert!(!out.level_reset);
}

#[test]
fn start_gives_one_impulse_and_no_second_one() {
    let mut game = new_game();
    let mut rng = GlobalRng::with_seed(1);
    let out = game.update(&input(true, false, 1000), &mut rng);
    assert_eq!(out.jumped.len(), 1);
    assert_eq!(game.player.velocity, Vector3::new(1, 10, 2));
    assert_eq!(game.player.position, Vector3::new(3, 1000, 4));
    assert_eq!(game.player.locked_axes, LockedAxes::flight());
    assert!(!out.pose_reset);
    // the course has not moved in the frame that starts the run
    assert_eq!(game.pipes, spawn_level(&scene()));
}

#[test]
fn jump_while_playing_sets_the_vertical_velocity() {
    let mut rng = GlobalRng::with_seed(1);
    let mut game = playing_game(&mut rng);
    let out = game.update(&input(true, false, 1000), &mut rng);
    assert_eq!(out.jumped.len(), 1);
    assert_eq!(game.player.velocity, Vector3::new(1, 10, 2));
    let out = game.update(&input(false, false, 1000), &mut rng);
    assert!(out.jumped.is_empty());
    assert_eq!(game.player.velocity, Vector3::new(1, -30, 2));
}

#[test]
fn collision_comes_before_the_jump() {
    let mut rng = GlobalRng::with_seed(1);
    let mut game = playing_game(&mut rng);
    let out = game.update(&input(true, true, 1000), &mut rng);
    assert_eq!(game.state, GameState::Dead);
    assert!(out.jumped.is_empty());
    assert_eq!(game.player.velocity, Vector3::new(1, -30, 2));
    assert_eq!(game.scene_settings.pipe_speed, 0);
}

#[test]
fn fall_below_the_floor_ends_the_run() {
    let mut rng = GlobalRng::with_seed(1);
    let mut game = playing_game(&mut rng);
    game.update(&input(false, false, -20000), &mut rng);
    assert_eq!(game.state, GameState::Playing);
    let out = game.update(&input(false, false, -20001), &mut rng);
    assert_eq!(game.state, GameState::Dead);
    assert_eq!(game.scene_settings.pipe_speed, 0);
    assert!(game.player.locked_axes.is_fully_locked());
    assert_eq!(out.saved, Some(game.score_info));
    assert_eq!(game.dead_ticks, 0);
}

#[test]
fn playing_frame_ramps_then_scrolls() {
    let mut rng = GlobalRng::with_seed(1);
    let mut game = playing_game(&mut rng);
    let mut frame = input(false, false, 1000);
    frame.delta = 2;
    game.update(&frame, &mut rng);
    assert_eq!(game.scene_settings.pipe_speed, 7);
    assert_eq!(game.pipes[1].position.x, 7000 - 14);
    assert_eq!(game.pipes[0].position.x, -14);
    assert!(game.pipes[0].scored);
    assert_eq!(game.score_info, ScoreInfo { current_score: 1, high_score: 1 });
}

#[test]
fn rest_lasts_as_long_as_the_delay() {
    let mut rng = GlobalRng::with_seed(1);
    let mut game = playing_game(&mut rng);
    game.update(&input(false, true, 1000), &mut rng);
    let mut frame = input(true, true, 1000);
    frame.delta = 999;
    let out = game.update(&frame, &mut rng);
    assert_eq!(game.state, GameState::Dead);
    assert_eq!(game.dead_ticks, 999);
    assert!(!out.level_reset);
    assert!(!out.pose_reset);
    frame.delta = 1;
    let out = game.update(&frame, &mut rng);
    assert_eq!(game.state, GameState::Ready);
    assert_eq!(game.dead_ticks, 0);
    assert!(out.level_reset);
    assert!(out.pose_reset);
    assert!(out.jumped.is_empty());
    assert!(game.is_valid());
}

#[test]
fn rest_without_delay_ends_with_the_next_frame() {
    let mut rng = GlobalRng::with_seed(1);
    let mut game = Game::new(scene(), player_settings(), ramp(), 0, None).unwrap();
    game.update(&input(true, false, 1000), &mut rng);
    game.update(&input(false, true, 1000), &mut rng);
    assert_eq!(game.state, GameState::Dead);
    let mut frame = input(false, false, 1000);
    frame.delta = 0;
    game.update(&frame, &mut rng);
    assert_eq!(game.state, GameState::Ready);
}

#[test]
fn rest_bears_the_longest_delay() {
    let mut rng = GlobalRng::with_seed(1);
    let mut game = Game::new(scene(), player_settings(), ramp(), u64::MAX, None).unwrap();
    game.update(&input(true, false, 1000), &mut rng);
    game.update(&input(false, true, 1000), &mut rng);
    game.dead_ticks = u64::MAX - 5;
    let mut frame = input(false, false, 1000);
    frame.delta = 4;
    game.update(&frame, &mut rng);
    assert_eq!(game.state, GameState::Dead);
    assert_eq!(game.dead_ticks, u64::MAX - 1);
    frame.delta = u32::MAX;
    game.update(&frame, &mut rng);
    assert_eq!(game.state, GameState::Ready);
}

#[test]
fn frame_without_a_body_changes_nothing() {
    let mut rng = GlobalRng::with_seed(1);
    let mut game = playing_game(&mut rng);
    let pipes = game.pipes.clone();
    let player = game.player;
    let speed = game.scene_settings.pipe_speed;
    let frame = FrameInput { delta: 500, jump_pressed: true, collided: true, body: None };
    let out = game.update(&frame, &mut rng);
    assert_eq!(game.state, GameState::Playing);
    assert_eq!(game.pipes, pipes);
    assert_eq!(game.player, player);
    assert_eq!(game.scene_settings.pipe_speed, speed);
    assert!(out.jumped.is_empty() && out.scored.is_empty());
    assert_eq!(out.saved, None);
    assert!(!out.level_reset && !out.pose_reset);
    let draws: Vec<i64> = vec![0; 5];
    let out = game.update_with(&frame, &draws);
    assert_eq!(game.pipes, pipes);
    assert!(out.jumped.is_empty());
}

#[test]
fn hard_mode_starts_at_the_ceiling() {
    let hard = SpeedRamp { hard_mode: true, ..ramp() };
    let mut game = Game::new(scene(), player_settings(), hard, 1000, None).unwrap();
    let mut rng = GlobalRng::with_seed(1);
    game.update(&input(true, false, 1000), &mut rng);
    assert_eq!(game.scene_settings.pipe_speed, 8);
    game.update(&input(false, false, 1000), &mut rng);
    assert_eq!(game.scene_settings.pipe_speed, 8);
    assert!(game.is_valid());
}

#[test]
fn update_with_and_update_agree_where_nothing_is_recycled() {
    let mut rng = GlobalRng::with_seed(1);
    let mut drawn = playing_game(&mut rng);
    let mut given = playing_game(&mut rng);
    let draws: Vec<i64> = vec![0; 5];
    let mut frames: u32 = 0;
    while frames < 100 {
        let a = drawn.update(&input(frames % 7 == 0, false, 1000), &mut rng);
        let b = given.update_with(&input(frames % 7 == 0, false, 1000), &draws);
        assert_eq!(a.jumped.len(), b.jumped.len());
        assert_eq!(a.scored.len(), b.scored.len());
        assert_eq!(drawn.pipes, given.pipes);
        assert_eq!(drawn.score_info, given.score_info);
        frames += 1;
    }
}

#[test]
fn long_run_keeps_to_the_rules() {
    let mut rng = GlobalRng::with_seed(2024);
    let mut game = Game::new(
        SceneSettings { pipe_gap_x: 700, ..scene() },
        player_settings(),
        SpeedRamp { base_speed: 5, max_speed: 80, ramp_rate: 1, hard_mode: false },
        40,
        Some(ScoreInfo { current_score: 0, high_score: 3 }),
    )
    .unwrap();
    let mut seed: u64 = 12345;
    let mut frames: u32 = 0;
    let mut episodes: u32 = 0;
    let mut recycled: u32 = 0;
    while frames < 20_000 {
        seed = seed.wrapping_mul(6364136223846793005).wrapping_add(1442695040888963407);
        let roll = (seed >> 33) % 1000;
        let frame = FrameInput {
            delta: (roll % 20) as u32,
            jump_pressed: roll % 5 == 0,
            collided: roll == 999,
            body: if roll == 1 {
                None
            } else {
                Some(BodySample {
                    position: Vector3::new(0, if roll == 998 { -30000 } else { 500 }, 0),
                    velocity: Vector3::zero(),
                })
            },
        };
        let before_state = game.state;
        let before_score = game.score_info;
        let before_pipes = game.pipes.clone();
        let out = game.update(&frame, &mut rng);
        assert!(game.is_valid());
        // the edges of the controller
        let edge_ok = match (before_state, game.state) {
            (a, b) if a == b => true,
            (GameState::Ready, GameState::Playing) => frame.jump_pressed,
            (GameState::Playing, GameState::Dead) => frame.collided || roll == 998,
            (GameState::Dead, GameState::Ready) => true,
            _ => false,
        };
        assert!(edge_ok);
        if game.state != GameState::Playing {
            assert_eq!(game.scene_settings.pipe_speed, 0);
        }
        // the score
        assert!(game.score_info.high_score >= before_score.high_score);
        assert!(game.score_info.high_score >= game.score_info.current_score);
        if game.score_info.current_score < before_score.current_score {
            assert_eq!((before_state, game.state), (GameState::Dead, GameState::Ready));
            assert_eq!(game.score_info.current_score, 0);
        }
        assert_eq!(
            game.score_info.current_score as usize,
            if out.level_reset { 0 } else { before_score.current_score as usize + out.scored.len() }
        );
        // the pool
        assert_eq!(game.pipes.len(), 5);
        let mut slot: usize = 0;
        while slot < 5 {
            let was = before_pipes[slot];
            let now = game.pipes[slot];
            if !out.level_reset && now.position.x > was.position.x {
                recycled += 1;
                assert_eq!(now.position.x, 2100);
                assert!(-2000 <= now.position.y && now.position.y < 2000);
            }
            if !was.scored && now.scored {
                assert!(now.position.x < 0);
            }
            if was.scored && !now.scored && !out.level_reset {
                assert!(now.position.x > 1000);
            }
            slot += 1;
        }
        if out.level_reset {
            episodes += 1;
        }
        frames += 1;
    }
    assert!(episodes > 3);
    assert!(recycled > 3);
}

#[test]
fn check_for_game_start_starts_only_a_waiting_run() {
    assert_eq!(check_for_game_start(GameState::Ready, true), GameState::Playing);
    assert_eq!(check_for_game_start(GameState::Ready, false), GameState::Ready);
    assert_eq!(check_for_game_start(GameState::Playing, true), GameState::Playing);
    assert_eq!(check_for_game_start(GameState::Dead, true), GameState::Dead);
    assert_eq!(GameState::default(), GameState::Ready);
}

#[test]
fn start_game_sets_speed_score_and_player() {
    let mut settings = scene();
    let mut score = ScoreInfo { current_score: 9, high_score: 11 };
    let mut player = Player::spawn(&player_settings());
    let event = start_game(&mut settings, &ramp(), &mut score, &mut player, &player_settings());
    assert_eq!(event, JumpedEvent);
    assert_eq!(settings, SceneSettings { pipe_speed: 5, ..scene() });
    assert_eq!(score, ScoreInfo { current_score: 0, high_score: 11 });
    assert_eq!(
        player,
        Player {
            position: Vector3::new(0, 1000, 0),
            velocity: Vector3::new(0, 10, 0),
            locked_axes: LockedAxes::flight(),
        }
    );
}

#[test]
fn check_for_collisions_stops_a_played_run() {
    let mut settings = SceneSettings { pipe_speed: 6, ..scene() };
    let mut player = Player {
        position: Vector3::new(1, 2, 3),
        velocity: Vector3::new(4, 5, 6),
        locked_axes: LockedAxes::flight(),
    };
    let next = check_for_collisions(GameState::Playing, false, &mut settings, &mut player);
    assert_eq!(next, GameState::Playing);
    assert_eq!(settings.pipe_speed, 6);
    assert_eq!(player.locked_axes, LockedAxes::flight());
    let next = check_for_collisions(GameState::Playing, true, &mut settings, &mut player);
    assert_eq!(next, GameState::Dead);
    assert_eq!(settings, scene());
    assert_eq!(
        player,
        Player {
            position: Vector3::new(1, 2, 3),
            velocity: Vector3::new(4, 5, 6),
            locked_axes: LockedAxes::all_locked(),
        }
    );
}

#[test]
fn check_for_collisions_leaves_other_states_alone() {
    let mut settings = scene();
    let mut player = Player::spawn(&player_settings());
    assert_eq!(check_for_collisions(GameState::Ready, true, &mut settings, &mut player), GameState::Ready);
    assert_eq!(check_for_collisions(GameState::Dead, true, &mut settings, &mut player), GameState::Dead);
    assert_eq!(player, Player::spawn(&player_settings()));
}

#[test]
fn check_for_fall_compares_with_the_floor() {
    let mut settings = SceneSettings { pipe_speed: 6, ..scene() };
    let mut player = Player {
        position: Vector3::new(0, -20000, 0),
        velocity: Vector3::zero(),
        locked_axes: LockedAxes::flight(),
    };
    assert!(!player.is_out_of_bounds(&player_settings()));
    assert_eq!(
        check_for_fall(GameState::Playing, &mut settings, &mut player, &player_settings()),
        GameState::Playing
    );
    assert_eq!(settings.pipe_speed, 6);
    player.position.y = -20001;
    assert!(player.is_out_of_bounds(&player_settings()));
    assert_eq!(
        check_for_fall(GameState::Ready, &mut settings, &mut player, &player_settings()),
        GameState::Ready
    );
    assert_eq!(settings.pipe_speed, 6);
    assert_eq!(
        check_for_fall(GameState::Playing, &mut settings, &mut player, &player_settings()),
        GameState::Dead
    );
    assert_eq!(settings.pipe_speed, 0);
    assert!(player.locked_axes.is_fully_locked());
}

#[test]
fn end_game_resets_player_course_and_score() {
    let mut player = Player {
        position: Vector3::new(9, 9, 9),
        velocity: Vector3::new(1, 1, 1),
        locked_axes: LockedAxes::all_locked(),
    };
    let mut pipes = vec![PipePair { position: Vector3::new(-5, 3, 0), scored: true }];
    let mut score = ScoreInfo { current_score: 6, high_score: 6 };
    let next = end_game(&mut player, &player_settings(), &mut pipes, &scene(), &mut score);
    assert_eq!(next, GameState::Ready);
    assert_eq!(player, Player::spawn(&player_settings()));
    assert_eq!(pipes, spawn_level(&scene()));
    assert_eq!(score, ScoreInfo { current_score: 0, high_score: 6 });
}

#[test]
fn jump_fires_only_while_playing() {
    let mut player = Player {
        position: Vector3::new(1, 2, 3),
        velocity: Vector3::new(4, -50, 6),
        locked_axes: LockedAxes::flight(),
    };
    assert_eq!(jump(GameState::Ready, true, &mut player, &player_settings()), None);
    assert_eq!(jump(GameState::Dead, true, &mut player, &player_settings()), None);
    assert_eq!(jump(GameState::Playing, false, &mut player, &player_settings()), None);
    assert_eq!(player.velocity, Vector3::new(4, -50, 6));
    assert_eq!(jump(GameState::Playing, true, &mut player, &player_settings()), Some(JumpedEvent));
    assert_eq!(player.velocity, Vector3::new(4, 10, 6));
    assert_eq!(player.position, Vector3::new(1, 2, 3));
    // a jump assigns: a second one in a row leaves the same velocity
    assert_eq!(jump(GameState::Playing, true, &mut player, &player_settings()), Some(JumpedEvent));
    assert_eq!(player.velocity, Vector3::new(4, 10, 6));
}

#[test]
fn locked_axes_are_built_flag_by_flag() {
    let none = LockedAxes::new();
    assert!(!none.translation_x && !none.translation_y && !none.translation_z);
    assert!(!none.rotation_x && !none.rotation_y && !none.rotation_z);
    assert!(!none.is_fully_locked());
    let some = none.lock_translation_x().lock_rotation_z();
    assert!(some.translation_x && some.rotation_z);
    assert!(!some.translation_y && !some.translation_z && !some.rotation_x && !some.rotation_y);
    let all = LockedAxes::new()
        .lock_translation_x()
        .lock_translation_y()
        .lock_translation_z()
        .lock_rotation_x()
        .lock_rotation_y()
        .lock_rotation_z();
    assert_eq!(all, LockedAxes::all_locked());
    assert!(all.is_fully_locked());
    let flight = LockedAxes::flight();
    assert!(!flight.translation_x && !flight.translation_y && !flight.translation_z);
    assert!(flight.rotation_x && flight.rotation_y && flight.rotation_z);
    assert!(!flight.is_fully_locked());
}

#[test]
fn saved_score_and_level_reset_follow_the_edge() {
    let score = ScoreInfo { current_score: 2, high_score: 5 };
    assert_eq!(saved_score(GameState::Playing, GameState::Dead, score), Some(score));
    assert_eq!(saved_score(GameState::Playing, GameState::Playing, score), None);
    assert_eq!(saved_score(GameState::Dead, GameState::Dead, score), None);
    assert_eq!(saved_score(GameState::Dead, GameState::Ready, score), None);
    assert!(level_was_reset(GameState::Dead, GameState::Ready));
    assert!(!level_was_reset(GameState::Dead, GameState::Dead));
    assert!(!level_was_reset(GameState::Ready, GameState::Ready));
    assert!(!level_was_reset(GameState::Playing, GameState::Dead));
}

#[test]
fn malformed_runs_are_told_apart() {
    let mut rng = GlobalRng::with_seed(1);
    let mut game = new_game();
    assert!(game.is_valid());
    game.scene_settings.pipe_speed = 1;
    assert!(!game.is_valid());
    game.scene_settings.pipe_speed = 0;
    game.score_info.current_score = 1;
    assert!(!game.is_valid());
    game.score_info.current_score = 0;
    game.pipes[0].scored = true;
    assert!(!game.is_valid());
    game.pipes[0].scored = false;
    game.player.locked_axes = LockedAxes::flight();
    assert!(!game.is_valid());
    game.player.locked_axes = LockedAxes::all_locked();
    assert!(game.is_valid());
    game.update(&input(true, false, 1000), &mut rng);
    assert!(game.is_valid());
    game.scene_settings.pipe_speed = 4;
    assert!(!game.is_valid());
    game.scene_settings.pipe_speed = 9;
    assert!(!game.is_valid());
    game.scene_settings.pipe_speed = 8;
    assert!(game.is_valid());
    game.pipes.pop();
    assert!(!game.is_valid());
}

#[test]
fn defaults_are_zero_and_lock_nothing() {
    assert_eq!(Vector3::default(), Vector3::zero());
    assert_eq!(Vector3::zero(), Vector3::new(0, 0, 0));
    assert_eq!(LockedAxes::default(), LockedAxes::new());
    assert_eq!(
        PlayerSettings::default(),
        PlayerSettings { initial_position: Vector3::zero(), jump_velocity: 0, floor_y: 0 }
    );
}
