//! The player body as the run controller sees it, and the jump.

use vstd::prelude::*;
use crate::state::GameState;

verus! {

/// Sent once for each upward impulse given to the player.
#[derive(Clone, Copy, Debug, PartialEq, Eq, Structural)]
pub struct JumpedEvent;

/// Three coordinates in fixed-point units: a position, or a velocity.
#[derive(Clone, Copy, Debug, PartialEq, Eq, Structural)]
pub struct Vector3 {
    pub x: i64,
    pub y: i64,
    pub z: i64,
}

impl Default for Vector3 {
    fn default() -> (v: Vector3)
        ensures
            v == (Vector3 { x: 0, y: 0, z: 0 }),
    {
        Vector3 { x: 0, y: 0, z: 0 }
    }
}

impl Vector3 {
    /// The vector with the given coordinates.
    pub fn new(x: i64, y: i64, z: i64) -> (v: Vector3)
        ensures
            v == (Vector3 { x, y, z }),
    {
        Vector3 { x, y, z }
    }

    /// The zero vector.
    pub fn zero() -> (v: Vector3)
        ensures
            v == (Vector3 { x: 0, y: 0, z: 0 }),
    {
        Vector3 { x: 0, y: 0, z: 0 }
    }
}

/// Along which axes the physics may not move or turn a body. A flag that is
/// set locks its axis.
#[derive(Clone, Copy, Debug, PartialEq, Eq, Structural)]
pub struct LockedAxes {
    pub translation_x: bool,
    pub translation_y: bool,
    pub translation_z: bool,
    pub rotation_x: bool,
    pub rotation_y: bool,
    pub rotation_z: bool,
}

/// The policy of a body that rests: every axis is locked.
pub open spec fn all_axes_locked() -> LockedAxes {
    LockedAxes {
        translation_x: true,
        translation_y: true,
        translation_z: true,
        rotation_x: true,
        rotation_y: true,
        rotation_z: true,
    }
}

/// The policy of a body in flight: it may move along every axis and may
/// not turn.
pub open spec fn flight_axes() -> LockedAxes {
    LockedAxes {
        translation_x: false,
        translation_y: false,
        translation_z: false,
        rotation_x: true,
        rotation_y: true,
        rotation_z: true,
    }
}

/// The policy that goes with a state: in flight while playing, at rest
/// otherwise.
pub open spec fn axes_for(state: GameState) -> LockedAxes {
    if state == GameState::Playing {
        flight_axes()
    } else {
        all_axes_locked()
    }
}

impl Default for LockedAxes {
    fn default() -> (axes: LockedAxes)
        ensures
            axes == (LockedAxes {
                translation_x: false,
                translation_y: false,
                translation_z: false,
                rotation_x: false,
                rotation_y: false,
                rotation_z: false,
            }),
    {
        LockedAxes::new()
    }
}

impl LockedAxes {
    /// The policy that locks nothing.
    pub fn new() -> (axes: LockedAxes)
        ensures
            axes == (LockedAxes {
                translation_x: false,
                translation_y: false,
                translation_z: false,
                rotation_x: false,
                rotation_y: false,
                rotation_z: false,
            }),
    {
        LockedAxes {
            translation_x: false,
            translation_y: false,
            translation_z: false,
            rotation_x: false,
            rotation_y: false,
            rotation_z: false,
        }
    }

    /// The same policy with translation along `x` locked.
    pub fn lock_translation_x(self) -> (axes: LockedAxes)
        ensures
            axes == (LockedAxes { translation_x: true, ..self }),
    {
        LockedAxes { translation_x: true, ..self }
    }

    /// The same policy with translation along `y` locked.
    pub fn lock_translation_y(self) -> (axes: LockedAxes)
        ensures
            axes == (LockedAxes { translation_y: true, ..self }),
    {
        LockedAxes { translation_y: true, ..self }
    }

    /// The same policy with translation along `z` locked.
    pub fn lock_translation_z(self) -> (axes: LockedAxes)
        ensures
            axes == (LockedAxes { translation_z: true, ..self }),
    {
        LockedAxes { translation_z: true, ..self }
    }

    /// The same policy with rotation about `x` locked.
    pub fn lock_rotation_x(self) -> (axes: LockedAxes)
        ensures
            axes == (LockedAxes { rotation_x: true, ..self }),
    {
        LockedAxes { rotation_x: true, ..self }
    }

    /// The same policy with rotation about `y` locked.
    pub fn lock_rotation_y(self) -> (axes: LockedAxes)
        ensures
            axes == (LockedAxes { rotation_y: true, ..self }),
    {
        LockedAxes { rotation_y: true, ..self }
    }

    /// The same policy with rotation about `z` locked.
    pub fn lock_rotation_z(self) -> (axes: LockedAxes)
        ensures
            axes == (LockedAxes { rotation_z: true, ..self }),
    {
        LockedAxes { rotation_z: true, ..self }
    }

    /// The policy of a body that rests.
    pub fn all_locked() -> (axes: LockedAxes)
        ensures
            axes == all_axes_locked(),
    {
        LockedAxes::new().lock_translation_x().lock_translation_y().lock_translation_z()
            .lock_rotation_x().lock_rotation_y().lock_rotation_z()
    }

    /// The policy of a body in flight.
    pub fn flight() -> (axes: LockedAxes)
        ensures
            axes == flight_axes(),
    {
        LockedAxes::new().lock_rotation_x().lock_rotation_y().lock_rotation_z()
    }

    /// Whether the body can neither move nor turn.
    pub fn is_fully_locked(&self) -> (locked: bool)
        ensures
            locked == (*self == all_axes_locked()),
    {
        self.translation_x && self.translation_y && self.translation_z && self.rotation_x
            && self.rotation_y && self.rotation_z
    }
}

/// The player body: where it is, how it moves, and what the physics may do
/// with it. The run controller alone writes the axis policy; the jump writes
/// the vertical velocity.
#[derive(Clone, Copy, Debug, PartialEq, Eq, Structural)]
pub struct Player {
    pub position: Vector3,
    pub velocity: Vector3,
    pub locked_axes: LockedAxes,
}

/// What is configured of the player.
#[derive(Clone, Copy, Debug, PartialEq, Eq, Structural)]
pub struct PlayerSettings {
    /// The spawn point.
    pub initial_position: Vector3,
    /// The vertical velocity that a jump sets.
    pub jump_velocity: i64,
    /// The height below which the player has fallen off the world.
    pub floor_y: i64,
}

impl Default for PlayerSettings {
    fn default() -> (settings: PlayerSettings)
        ensures
            settings == (PlayerSettings {
                initial_position: Vector3 { x: 0, y: 0, z: 0 },
                jump_velocity: 0,
                floor_y: 0,
            }),
    {
        PlayerSettings { initial_position: Vector3::zero(), jump_velocity: 0, floor_y: 0 }
    }
}

/// The player as it waits at the spawn point: at rest, every axis locked.
pub open spec fn player_at_spawn(settings: PlayerSettings) -> Player {
    Player {
        position: settings.initial_position,
        velocity: Vector3 { x: 0, y: 0, z: 0 },
        locked_axes: all_axes_locked(),
    }
}

/// `player` with its vertical velocity set to the jump velocity. A jump
/// assigns; it does not add to the speed the body already has.
pub open spec fn player_after_impulse(player: Player, settings: PlayerSettings) -> Player {
    Player {
        velocity: Vector3 { y: settings.jump_velocity, ..player.velocity },
        ..player
    }
}

/// Whether a jump fires: on the jump edge, and only while playing. The edge
/// that starts a run is used up by the start.
pub open spec fn jump_fires(state: GameState, jump_pressed: bool) -> bool {
    state == GameState::Playing && jump_pressed
}

impl Player {
    /// A player waiting at the spawn point.
    pub fn spawn(settings: &PlayerSettings) -> (player: Player)
        ensures
            player == player_at_spawn(*settings),
    {
        Player {
            position: settings.initial_position,
            velocity: Vector3::zero(),
            locked_axes: LockedAxes::all_locked(),
        }
    }

    /// Whether the player has fallen below the floor.
    pub fn is_out_of_bounds(&self, settings: &PlayerSettings) -> (out: bool)
        ensures
            out == (self.position.y < settings.floor_y),
    {
        self.position.y < settings.floor_y
    }
}

/// The player motor. On the jump edge while playing, sets the vertical
/// velocity to the jump velocity and reports the jump; otherwise leaves the
/// player as it is and reports nothing.
pub fn jump(
    state: GameState,
    jump_pressed: bool,
    player: &mut Player,
    settings: &PlayerSettings,
) -> (event: Option<JumpedEvent>)
    ensures
        event.is_some() == jump_fires(state, jump_pressed),
        *final(player) == if jump_fires(state, jump_pressed) {
            player_after_impulse(*old(player), *settings)
        } else {
            *old(player)
        },
{
    match state {
        GameState::Playing => {
            if jump_pressed {
                player.velocity.y = settings.jump_velocity;
                Some(JumpedEvent)
            } else {
                None
            }
        },
        _ => None,
    }
}

} // verus!
