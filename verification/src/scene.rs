//! The course: a fixed pool of obstacles that scroll past the player and
//! are put back in front once they have left the view.

use vstd::prelude::*;
use bevy_turborand::GlobalRng;
use crate::player::Vector3;
use crate::rng::draw_between;

verus! {

/// The fastest scroll speed a course accepts, in length units per tick.
pub const MAX_SPEED: i64 = 1_073_741_824;

/// The widest gap between two obstacles, and the widest vertical spread.
pub const MAX_SPAN: i64 = 1_099_511_627_776;

/// The largest pool of obstacles.
pub const MAX_PIPES: usize = 65_536;

/// The farthest an obstacle may stand from the player, either way.
pub const MAX_COORD: i64 = 4_611_686_018_427_387_904;

/// One obstacle of the pool: a pair of pipes with an opening between them.
#[derive(Clone, Copy, Debug, PartialEq, Eq, Structural)]
pub struct PipePair {
    /// Where the pair stands. `x` changes with every frame, `y` with every
    /// recycle, `z` never.
    pub position: Vector3,
    /// Whether the pair has been counted for the pass it is on.
    pub scored: bool,
}

/// The layout of the course and the speed at which it scrolls.
#[derive(Clone, Copy, Debug, PartialEq, Eq, Structural)]
pub struct SceneSettings {
    /// The distance between two neighbours of the pool.
    pub pipe_gap_x: i64,
    /// The height of the opening between the two pipes of a pair.
    pub pipe_gap_y: i64,
    /// The width of the band from which a recycled pair draws its height.
    pub pipe_spread: i64,
    /// How far below the drawn value the height of a recycled pair lies.
    pub pipe_offset: i64,
    /// How many pairs a level is made of.
    pub pipe_count: usize,
    /// How far beyond the scoring boundary a counted pair has to stand to
    /// be counted again.
    pub rearm_distance: i64,
    /// The scroll speed at this moment.
    pub pipe_speed: i64,
}

impl Default for PipePair {
    fn default() -> (pipe: PipePair)
        ensures
            pipe == (PipePair { position: Vector3 { x: 0, y: 0, z: 0 }, scored: false }),
    {
        PipePair { position: Vector3::zero(), scored: false }
    }
}

impl Default for SceneSettings {
    fn default() -> (settings: SceneSettings)
        ensures
            settings == (SceneSettings {
                pipe_gap_x: 0,
                pipe_gap_y: 0,
                pipe_spread: 0,
                pipe_offset: 0,
                pipe_count: 0,
                rearm_distance: 0,
                pipe_speed: 0,
            }),
            settings.wf(),
    {
        SceneSettings {
            pipe_gap_x: 0,
            pipe_gap_y: 0,
            pipe_spread: 0,
            pipe_offset: 0,
            pipe_count: 0,
            rearm_distance: 0,
            pipe_speed: 0,
        }
    }
}

impl SceneSettings {
    /// The settings that the arithmetic of a course can bear.
    pub open spec fn wf(&self) -> bool {
        &&& 0 <= self.pipe_gap_x <= MAX_SPAN
        &&& 0 <= self.pipe_spread <= MAX_SPAN
        &&& -MAX_COORD <= self.pipe_offset <= MAX_COORD
        &&& self.pipe_count <= MAX_PIPES
        &&& 0 <= self.rearm_distance
        &&& 0 <= self.pipe_speed <= MAX_SPEED
    }

    /// Whether the settings are well formed.
    pub fn is_valid(&self) -> (valid: bool)
        ensures
            valid == self.wf(),
    {
        0 <= self.pipe_gap_x && self.pipe_gap_x <= MAX_SPAN && 0 <= self.pipe_spread
            && self.pipe_spread <= MAX_SPAN && -MAX_COORD <= self.pipe_offset && self.pipe_offset
            <= MAX_COORD && self.pipe_count <= MAX_PIPES && 0 <= self.rearm_distance && 0
            <= self.pipe_speed && self.pipe_speed <= MAX_SPEED
    }
}

/// The line behind the player past which an obstacle has left the view: two
/// gaps back.
pub open spec fn out_of_view_bound(settings: SceneSettings) -> int {
    -2 * settings.pipe_gap_x
}

/// Where a recycled obstacle of a pool of `pool` pairs is put: at the far
/// end of the queue, which keeps the pairs evenly spaced.
pub open spec fn recycle_x(settings: SceneSettings, pool: nat) -> int {
    settings.pipe_gap_x * (pool - 2)
}

/// The largest value a height draw can take: draws are spread over
/// `0 .. pipe_spread`, and a band of no width leaves the single draw 0.
pub open spec fn highest_draw(settings: SceneSettings) -> int {
    if settings.pipe_spread >= 1 {
        settings.pipe_spread - 1
    } else {
        0
    }
}

/// Whether `draw` is a height draw that `settings` allow.
pub open spec fn draw_in_band(settings: SceneSettings, draw: i64) -> bool {
    0 <= draw <= highest_draw(settings)
}

/// Whether `draws` holds one allowed height draw for each of `pool` pairs.
pub open spec fn draws_in_band(settings: SceneSettings, draws: Seq<i64>, pool: nat) -> bool {
    &&& draws.len() == pool
    &&& forall|i: int| 0 <= i < draws.len() ==> draw_in_band(settings, #[trigger] draws[i])
}

/// Whether each pair of `pipes` stands within reach of the arithmetic.
pub open spec fn course_in_range(pipes: Seq<PipePair>) -> bool {
    &&& pipes.len() <= MAX_PIPES
    &&& forall|i: int|
        0 <= i < pipes.len() ==> -MAX_COORD <= (#[trigger] pipes[i]).position.x <= MAX_COORD
}

/// The pair that a level starts with in slot `slot`: on the ground line,
/// `slot` gaps in front of the player, not counted.
pub open spec fn initial_pipe(settings: SceneSettings, slot: int) -> PipePair {
    PipePair {
        position: Vector3 { x: (slot * settings.pipe_gap_x) as i64, y: 0, z: 0 },
        scored: false,
    }
}

/// The course that a level starts with.
pub open spec fn initial_course(settings: SceneSettings) -> Seq<PipePair> {
    Seq::new(settings.pipe_count as nat, |slot: int| initial_pipe(settings, slot))
}

/// `pipe` after it has scrolled `distance` towards the player.
pub open spec fn moved_pipe(pipe: PipePair, distance: int) -> PipePair {
    PipePair {
        position: Vector3 { x: (pipe.position.x - distance) as i64, ..pipe.position },
        ..pipe
    }
}

/// The course after every pair has scrolled `distance`.
pub open spec fn moved_pipes(pipes: Seq<PipePair>, distance: int) -> Seq<PipePair> {
    Seq::new(pipes.len(), |i: int| moved_pipe(pipes[i], distance))
}

/// Whether `pipe` has left the view. The comparison is strict: a pair on
/// the line itself stays.
pub open spec fn is_out_of_view(pipe: PipePair, settings: SceneSettings) -> bool {
    pipe.position.x < out_of_view_bound(settings)
}

/// `pipe` after the recycle check in a pool of `pool` pairs: a pair that has
/// left the view goes to the far end of the queue at the height
/// `draw - pipe_offset`, any other stays as it is.
pub open spec fn recycled_pipe(
    pipe: PipePair,
    settings: SceneSettings,
    pool: nat,
    draw: i64,
) -> PipePair {
    if is_out_of_view(pipe, settings) {
        PipePair {
            position: Vector3 {
                x: recycle_x(settings, pool) as i64,
                y: (draw - settings.pipe_offset) as i64,
                z: pipe.position.z,
            },
            scored: pipe.scored,
        }
    } else {
        pipe
    }
}

/// The course after the recycle check, where slot `i` uses `draws[i]` if it
/// is recycled.
pub open spec fn recycled_pipes(
    pipes: Seq<PipePair>,
    settings: SceneSettings,
    draws: Seq<i64>,
) -> Seq<PipePair> {
    Seq::new(pipes.len(), |i: int| recycled_pipe(pipes[i], settings, pipes.len(), draws[i]))
}

/// Whether `after` is what the recycle check can make of `before` with some
/// allowed draws.
pub open spec fn is_recycle_of(
    before: Seq<PipePair>,
    settings: SceneSettings,
    after: Seq<PipePair>,
) -> bool {
    exists|draws: Seq<i64>|
        #![trigger recycled_pipes(before, settings, draws)]
        draws_in_band(settings, draws, before.len()) && after == recycled_pipes(
            before,
            settings,
            draws,
        )
}

/// The order to add one obstacle to a course.
#[derive(Clone, Copy, Debug, PartialEq, Eq, Structural)]
pub struct SpawnPipePair {
    /// How far in front of the player the pair is to stand.
    pub position_x: i64,
}

impl SpawnPipePair {
    /// Adds the pair to the end of `pipes`: on the ground line, not counted.
    pub fn apply(self, pipes: &mut Vec<PipePair>)
        ensures
            final(pipes)@ == old(pipes)@.push(
                PipePair {
                    position: Vector3 { x: self.position_x, y: 0, z: 0 },
                    scored: false,
                },
            ),
    {
        pipes.push(
            PipePair { position: Vector3 { x: self.position_x, y: 0, z: 0 }, scored: false },
        );
    }
}

/// Builds the course that a level starts with: `pipe_count` pairs, one gap
/// apart, the first beside the player.
pub fn spawn_level(settings: &SceneSettings) -> (pipes: Vec<PipePair>)
    requires
        settings.wf(),
    ensures
        pipes@ == initial_course(*settings),
        course_in_range(pipes@),
{
    let mut pipes: Vec<PipePair> = Vec::new();
    let mut slot: usize = 0;
    while slot < settings.pipe_count
        invariant
            settings.wf(),
            slot <= settings.pipe_count,
            pipes@.len() == slot,
            forall|i: int| 0 <= i < slot ==> pipes@[i] == initial_pipe(*settings, i),
        decreases settings.pipe_count - slot,
    {
        assert(0 <= slot * settings.pipe_gap_x <= MAX_PIPES * MAX_SPAN) by (nonlinear_arith)
            requires
                0 <= slot <= MAX_PIPES,
                0 <= settings.pipe_gap_x <= MAX_SPAN,
        ;
        let order = SpawnPipePair { position_x: (slot as i64) * settings.pipe_gap_x };
        order.apply(&mut pipes);
        slot = slot + 1;
    }
    proof {
        assert(pipes@ =~= initial_course(*settings));
        assert forall|i: int| 0 <= i < pipes@.len() implies -MAX_COORD <= (
        #[trigger] pipes@[i]).position.x <= MAX_COORD by {
            assert(0 <= i * settings.pipe_gap_x <= MAX_PIPES * MAX_SPAN) by (nonlinear_arith)
                requires
                    0 <= i <= MAX_PIPES,
                    0 <= settings.pipe_gap_x <= MAX_SPAN,
            ;
        }
    }
    pipes
}

/// Scrolls every pair towards the player by the distance that the current
/// speed covers in `delta` ticks.
pub fn move_pipes(pipes: &mut Vec<PipePair>, settings: &SceneSettings, delta: u32)
    requires
        settings.wf(),
        course_in_range(old(pipes)@),
    ensures
        final(pipes)@ == moved_pipes(old(pipes)@, settings.pipe_speed * delta),
{
    assert(0 <= settings.pipe_speed * delta <= MAX_SPEED * 0x1_0000_0000) by (nonlinear_arith)
        requires
            0 <= settings.pipe_speed <= MAX_SPEED,
            0 <= delta < 0x1_0000_0000,
    ;
    let distance: i64 = settings.pipe_speed * (delta as i64);
    let mut i: usize = 0;
    while i < pipes.len()
        invariant
            i <= pipes@.len(),
            pipes@.len() == old(pipes)@.len(),
            course_in_range(old(pipes)@),
            0 <= distance <= MAX_COORD,
            forall|j: int| 0 <= j < i ==> pipes@[j] == moved_pipe(old(pipes)@[j], distance as int),
            forall|j: int| i <= j < pipes@.len() ==> pipes@[j] == old(pipes)@[j],
        decreases pipes@.len() - i,
    {
        let mut pipe = pipes[i];
        pipe.position.x = pipe.position.x - distance;
        pipes[i] = pipe;
        i = i + 1;
    }
    assert(pipes@ =~= moved_pipes(old(pipes)@, settings.pipe_speed * delta));
}

/// Puts one pair through the recycle check of a pool of `pool` pairs, with
/// `draw` as the height draw.
pub fn recycle_pipe(pipe: PipePair, settings: &SceneSettings, pool: usize, draw: i64) -> (after:
    PipePair)
    requires
        settings.wf(),
        pool <= MAX_PIPES,
        draw_in_band(*settings, draw),
    ensures
        after == recycled_pipe(pipe, *settings, pool as nat, draw),
{
    let bound: i64 = 0 - 2 * settings.pipe_gap_x;
    if pipe.position.x < bound {
        assert(-2 * MAX_SPAN <= settings.pipe_gap_x * (pool - 2) <= MAX_SPAN * MAX_PIPES)
            by (nonlinear_arith)
            requires
                0 <= pool <= MAX_PIPES,
                0 <= settings.pipe_gap_x <= MAX_SPAN,
        ;
        PipePair {
            position: Vector3 {
                x: settings.pipe_gap_x * (pool as i64 - 2),
                y: draw - settings.pipe_offset,
                z: pipe.position.z,
            },
            scored: pipe.scored,
        }
    } else {
        pipe
    }
}

/// Recycles with given draws: every pair that has left the view goes to the
/// far end of the queue, at the height that its slot's draw gives.
pub fn recycle_pipes_with(pipes: &mut Vec<PipePair>, settings: &SceneSettings, draws: &Vec<i64>)
    requires
        settings.wf(),
        old(pipes)@.len() <= MAX_PIPES,
        draws_in_band(*settings, draws@, old(pipes)@.len()),
    ensures
        final(pipes)@ == recycled_pipes(old(pipes)@, *settings, draws@),
{
    let pool = pipes.len();
    let mut i: usize = 0;
    while i < pool
        invariant
            settings.wf(),
            pool == pipes@.len(),
            pool == old(pipes)@.len(),
            pool <= MAX_PIPES,
            i <= pool,
            draws_in_band(*settings, draws@, pool as nat),
            forall|j: int|
                0 <= j < i ==> pipes@[j] == recycled_pipe(
                    old(pipes)@[j],
                    *settings,
                    pool as nat,
                    draws@[j],
                ),
            forall|j: int| i <= j < pool ==> pipes@[j] == old(pipes)@[j],
        decreases pool - i,
    {
        let after = recycle_pipe(pipes[i], settings, pool, draws[i]);
        pipes[i] = after;
        i = i + 1;
    }
    assert(pipes@ =~= recycled_pipes(old(pipes)@, *settings, draws@));
}

/// Recycles with fresh draws from `rng`: every pair that has left the view
/// goes to the far end of the queue, at a height drawn from the band. One
/// draw is made for each pair that is recycled, in the order of the slots.
pub fn recycle_pipes(pipes: &mut Vec<PipePair>, settings: &SceneSettings, rng: &mut GlobalRng)
    requires
        settings.wf(),
        old(pipes)@.len() <= MAX_PIPES,
    ensures
        is_recycle_of(old(pipes)@, *settings, final(pipes)@),
{
    let pool = pipes.len();
    let highest: i64 = if settings.pipe_spread >= 1 {
        settings.pipe_spread - 1
    } else {
        0
    };
    let ghost mut used: Seq<i64> = Seq::empty();
    let mut i: usize = 0;
    while i < pool
        invariant
            settings.wf(),
            highest == highest_draw(*settings),
            pool == pipes@.len(),
            pool == old(pipes)@.len(),
            pool <= MAX_PIPES,
            i <= pool,
            draws_in_band(*settings, used, i as nat),
            forall|j: int|
                0 <= j < i ==> pipes@[j] == recycled_pipe(
                    old(pipes)@[j],
                    *settings,
                    pool as nat,
                    used[j],
                ),
            forall|j: int| i <= j < pool ==> pipes@[j] == old(pipes)@[j],
        decreases pool - i,
    {
        let pipe = pipes[i];
        let bound: i64 = 0 - 2 * settings.pipe_gap_x;
        if pipe.position.x < bound {
            let draw = draw_between(rng, 0, highest);
            let after = recycle_pipe(pipe, settings, pool, draw);
            pipes[i] = after;
            proof {
                used = used.push(draw);
            }
        } else {
            proof {
                used = used.push(0i64);
            }
        }
        i = i + 1;
    }
    assert(pipes@ =~= recycled_pipes(old(pipes)@, *settings, used));
}

/// Whether each pair of `pipes` stands within reach of the arithmetic.
pub fn is_course_in_range(pipes: &Vec<PipePair>) -> (within: bool)
    ensures
        within == course_in_range(pipes@),
{
    if pipes.len() > MAX_PIPES {
        return false;
    }
    let mut i: usize = 0;
    while i < pipes.len()
        invariant
            i <= pipes@.len(),
            pipes@.len() <= MAX_PIPES,
            forall|j: int|
                0 <= j < i ==> -MAX_COORD <= (#[trigger] pipes@[j]).position.x <= MAX_COORD,
        decreases pipes@.len() - i,
    {
        let x = pipes[i].position.x;
        if x < -MAX_COORD || x > MAX_COORD {
            return false;
        }
        i = i + 1;
    }
    true
}

/// Whether `pipes` is the course that a level starts with.
pub fn is_initial_course(pipes: &Vec<PipePair>, settings: &SceneSettings) -> (initial: bool)
    requires
        settings.wf(),
    ensures
        initial == (pipes@ == initial_course(*settings)),
{
    if pipes.len() != settings.pipe_count {
        return false;
    }
    let mut i: usize = 0;
    while i < pipes.len()
        invariant
            settings.wf(),
            i <= pipes@.len(),
            pipes@.len() == settings.pipe_count,
            forall|j: int| 0 <= j < i ==> pipes@[j] == initial_pipe(*settings, j),
        decreases pipes@.len() - i,
    {
        assert(0 <= i * settings.pipe_gap_x <= MAX_PIPES * MAX_SPAN) by (nonlinear_arith)
            requires
                0 <= i <= MAX_PIPES,
                0 <= settings.pipe_gap_x <= MAX_SPAN,
        ;
        let pipe = pipes[i];
        let x: i64 = (i as i64) * settings.pipe_gap_x;
        if pipe.position.x != x || pipe.position.y != 0 || pipe.position.z != 0 || pipe.scored {
            assert(pipes@[i as int] != initial_course(*settings)[i as int]);
            return false;
        }
        i = i + 1;
    }
    assert(pipes@ =~= initial_course(*settings));
    true
}

} // verus!
