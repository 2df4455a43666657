//! The camera rig state machine: the follow modes with their saturating
//! transitions, and the ordered per-tick update — desired-position
//! derivation, speed-dependent offset adjustment, and eased placement with
//! a look-at aimed at the player.

use vstd::prelude::*;

verus! {

use crate::error::ConfigError;
use crate::player::PlayerData;
use crate::milli::{
    lemma_mul_abs_sign, lemma_rdiv_bounded, lemma_rdiv_exact, lemma_rdiv_zero,
    mul_div_round, rdiv, COORD_LIMIT, DEN_LIMIT, MILLI_ONE, PLACEMENT_LIMIT, RATE_LIMIT,
};
use crate::vec3::{ease_vec, ease_vec_spec, lemma_ease_vec_within, Vec3Milli};
use vstd::arithmetic::mul::lemma_mul_upper_bound;
use vstd::math::abs;

/// The constant part of the camera height above the player, in
/// milli-units: 2.5 world units.
pub const HEIGHT_BASE: i64 = 2500;

/// Largest easing rate accepted, in milli-units per second.
pub const EASING_LIMIT: i64 = 1_000_000;

/// Largest magnitude the speed-adjusted vertical offset can reach; wide
/// enough for `HEIGHT_BASE` plus any extrapolated height interpolation.
pub const OFFSET_V_LIMIT: i64 = 3_000_000_000_000;

/// Largest numerator accepted for the frame delta time, in seconds.
pub const DT_NUM_LIMIT: i64 = 1_000_000;

/// Largest denominator accepted for the frame delta time.
pub const DT_DEN_LIMIT: i64 = 1_000_000_000;

/// The camera follow mode.
#[derive(Clone, Copy, Debug, PartialEq, Eq, Structural)]
pub enum CameraMode {
    /// Placed every tick: eased toward the desired position, aimed at the
    /// player.  The startup default.
    Fixed,
    /// Placed every tick, exactly as `Fixed`.
    Free,
    /// Frozen: the placement step leaves the transform and the published
    /// state untouched, and easing and look-at are disabled until the mode
    /// changes.
    Follow,
}

/// The upward mode transition always saturates at `Free`.
pub open spec fn shift_up_spec(m: CameraMode) -> CameraMode {
    match m {
        CameraMode::Fixed => CameraMode::Free,
        CameraMode::Free => CameraMode::Free,
        CameraMode::Follow => CameraMode::Free,
    }
}

/// The downward mode transition always saturates at `Follow`.
pub open spec fn shift_down_spec(m: CameraMode) -> CameraMode {
    match m {
        CameraMode::Fixed => CameraMode::Follow,
        CameraMode::Free => CameraMode::Follow,
        CameraMode::Follow => CameraMode::Follow,
    }
}

/// Shift a mode up the lattice.
pub fn shift_up(m: CameraMode) -> (r: CameraMode)
    ensures
        r == shift_up_spec(m),
{
    match m {
        CameraMode::Fixed => CameraMode::Free,
        CameraMode::Free => CameraMode::Free,
        CameraMode::Follow => CameraMode::Free,
    }
}

/// Shift a mode down the lattice.
pub fn shift_down(m: CameraMode) -> (r: CameraMode)
    ensures
        r == shift_down_spec(m),
{
    match m {
        CameraMode::Fixed => CameraMode::Follow,
        CameraMode::Free => CameraMode::Follow,
        CameraMode::Follow => CameraMode::Follow,
    }
}

/// The mode lattice: from every mode, shifting up lands on `Free` and
/// shifting down lands on `Follow`.
pub proof fn lemma_mode_lattice()
    ensures
        forall|m: CameraMode| (#[trigger] shift_up_spec(m)) == CameraMode::Free,
        forall|m: CameraMode| (#[trigger] shift_down_spec(m)) == CameraMode::Follow,
{
}

/// The camera placement parameters, owned by the scene camera entity.
#[derive(Clone, Copy, Debug)]
pub struct CameraRigConfig {
    /// Displacement from the player: `x` lateral (unused), `y` vertical
    /// height, `z` longitudinal distance behind the subject.
    pub offset: Vec3Milli,
    /// Height interpolation bound reached at a speed ratio of zero.
    pub y_offset_max: i64,
    /// Height interpolation bound reached at a speed ratio of one.
    pub y_offset_min: i64,
    /// Yaw bias in millidegrees; the host turns it into the forward axis.
    pub angle: i64,
    /// Easing rate in milli-units per second of interpolation factor.
    pub easing: i64,
    /// The follow mode.
    pub mode: CameraMode,
    /// Where the camera wants to be; derived anew every tick, never
    /// persisted input.
    pub desired_position: Vec3Milli,
}

impl CameraRigConfig {
    /// The configuration invariant: ordered height bounds, a positive
    /// bounded easing rate, and every length within the limits the tick
    /// arithmetic needs.
    pub open spec fn wf(self) -> bool {
        &&& self.y_offset_min <= self.y_offset_max
        &&& -COORD_LIMIT <= self.y_offset_min <= COORD_LIMIT
        &&& -COORD_LIMIT <= self.y_offset_max <= COORD_LIMIT
        &&& 1 <= self.easing <= EASING_LIMIT
        &&& -COORD_LIMIT <= self.offset.x <= COORD_LIMIT
        &&& -OFFSET_V_LIMIT <= self.offset.y <= OFFSET_V_LIMIT
        &&& -COORD_LIMIT <= self.offset.z <= COORD_LIMIT
        &&& self.desired_position.in_limit(PLACEMENT_LIMIT as int)
    }

    /// Builds a rig configuration, rejecting inverted height bounds and a
    /// non-positive easing rate.  The derived desired position starts at
    /// the origin.
    pub fn new(
        offset: Vec3Milli,
        y_offset_max: i64,
        y_offset_min: i64,
        angle: i64,
        easing: i64,
        mode: CameraMode,
    ) -> (r: Result<CameraRigConfig, ConfigError>)
        requires
            -COORD_LIMIT <= offset.x <= COORD_LIMIT,
            -OFFSET_V_LIMIT <= offset.y <= OFFSET_V_LIMIT,
            -COORD_LIMIT <= offset.z <= COORD_LIMIT,
            -COORD_LIMIT <= y_offset_max <= COORD_LIMIT,
            -COORD_LIMIT <= y_offset_min <= COORD_LIMIT,
            easing <= EASING_LIMIT,
        ensures
            y_offset_min > y_offset_max ==> r == Err::<CameraRigConfig, ConfigError>(
                ConfigError::OffsetBoundsInverted,
            ),
            y_offset_min <= y_offset_max && easing < 1 ==> r == Err::<CameraRigConfig, ConfigError>(
                ConfigError::NonPositiveEasing,
            ),
            y_offset_min <= y_offset_max && easing >= 1 ==> r == Ok::<CameraRigConfig, ConfigError>(
                (CameraRigConfig {
                    offset,
                    y_offset_max,
                    y_offset_min,
                    angle,
                    easing,
                    mode,
                    desired_position: Vec3Milli { x: 0, y: 0, z: 0 },
                }),
            ),
            r is Ok ==> r->Ok_0.wf(),
    {
        if y_offset_min > y_offset_max {
            Err(ConfigError::OffsetBoundsInverted)
        } else if easing < 1 {
            Err(ConfigError::NonPositiveEasing)
        } else {
            Ok(
                CameraRigConfig {
                    offset,
                    y_offset_max,
                    y_offset_min,
                    angle,
                    easing,
                    mode,
                    desired_position: Vec3Milli { x: 0, y: 0, z: 0 },
                },
            )
        }
    }
}

/// The live camera transform, as the rig decides it: a position, and an
/// orientation given as the point the camera aims at with world up.  The
/// host turns the aim point into its rotation representation.
#[derive(Clone, Copy, Debug, PartialEq, Eq, Structural)]
pub struct CameraTransform {
    pub position: Vec3Milli,
    pub look_target: Vec3Milli,
}

impl CameraTransform {
    /// Both the position and the aim point stay within placement range.
    pub open spec fn wf(self) -> bool {
        &&& self.position.in_limit(PLACEMENT_LIMIT as int)
        &&& self.look_target.in_limit(PLACEMENT_LIMIT as int)
    }
}

/// The process-wide snapshot the rig publishes after each placement for
/// other systems to read: the camera transform as it stood when the
/// placement step ran, and the owning camera entity.
#[derive(Clone, Copy, Debug, PartialEq, Eq, Structural)]
pub struct CameraObservedState {
    pub position: Vec3Milli,
    pub look_target: Vec3Milli,
    pub owner: u64,
}

/// Puts the camera at the fixed vantage point ten units out on every axis,
/// aimed at the origin.
pub fn position_camera(camera: &mut CameraTransform)
    ensures
        final(camera).position == (Vec3Milli { x: 10000, y: 10000, z: 10000 }),
        final(camera).look_target == (Vec3Milli { x: 0, y: 0, z: 0 }),
        final(camera).wf(),
{
    camera.position = Vec3Milli { x: 10000, y: 10000, z: 10000 };
    camera.look_target = Vec3Milli { x: 0, y: 0, z: 0 };
}

/// Where the camera wants to be: the player's position, plus the yaw-bias
/// forward axis scaled by the longitudinal offset, plus world up scaled by
/// the vertical offset.  `forward` is the normalized forward axis of the
/// yaw orientation, so each component is at most one unit.
pub open spec fn desired_position_spec(p: Vec3Milli, f: Vec3Milli, off: Vec3Milli) -> Vec3Milli {
    Vec3Milli {
        x: (p.x + rdiv(off.z * f.x, MILLI_ONE as int)) as i64,
        y: (p.y + rdiv(off.z * f.y, MILLI_ONE as int) + off.y) as i64,
        z: (p.z + rdiv(off.z * f.z, MILLI_ONE as int)) as i64,
    }
}

/// The derived desired position stays comfortably within placement range,
/// and each component equals its uncast value.
pub proof fn lemma_desired_in_range(p: Vec3Milli, f: Vec3Milli, off: Vec3Milli)
    requires
        p.in_limit(COORD_LIMIT as int),
        f.in_limit(MILLI_ONE as int),
        -COORD_LIMIT <= off.z <= COORD_LIMIT,
        -OFFSET_V_LIMIT <= off.y <= OFFSET_V_LIMIT,
    ensures
        desired_position_spec(p, f, off).in_limit(PLACEMENT_LIMIT as int),
        desired_position_spec(p, f, off).x as int == p.x + rdiv(off.z * f.x, MILLI_ONE as int),
        desired_position_spec(p, f, off).y as int == p.y + rdiv(off.z * f.y, MILLI_ONE as int)
            + off.y,
        desired_position_spec(p, f, off).z as int == p.z + rdiv(off.z * f.z, MILLI_ONE as int),
{
    lemma_scaled_forward_bounded(off.z as int, f.x as int);
    lemma_scaled_forward_bounded(off.z as int, f.y as int);
    lemma_scaled_forward_bounded(off.z as int, f.z as int);
}

/// Scaling one component of a normalized axis by the longitudinal offset
/// keeps the result within the offset's own magnitude.
proof fn lemma_scaled_forward_bounded(off_z: int, f: int)
    requires
        -COORD_LIMIT <= off_z <= COORD_LIMIT,
        -MILLI_ONE <= f <= MILLI_ONE,
    ensures
        -COORD_LIMIT <= rdiv(off_z * f, MILLI_ONE as int) <= COORD_LIMIT,
{
    lemma_mul_abs_sign(off_z, f);
    lemma_mul_upper_bound(abs(off_z) as int, COORD_LIMIT as int, abs(f) as int, MILLI_ONE as int);
    lemma_rdiv_bounded(off_z * f, MILLI_ONE as int, COORD_LIMIT as int);
}

/// Derives the desired position for this tick, executable form.
pub fn derive_desired_position(
    player_position: &Vec3Milli,
    forward: &Vec3Milli,
    offset: &Vec3Milli,
) -> (d: Vec3Milli)
    requires
        player_position.in_limit(COORD_LIMIT as int),
        forward.in_limit(MILLI_ONE as int),
        -COORD_LIMIT <= offset.x <= COORD_LIMIT,
        -OFFSET_V_LIMIT <= offset.y <= OFFSET_V_LIMIT,
        -COORD_LIMIT <= offset.z <= COORD_LIMIT,
    ensures
        d == desired_position_spec(*player_position, *forward, *offset),
        d.in_limit(PLACEMENT_LIMIT as int),
{
    proof {
        lemma_desired_in_range(*player_position, *forward, *offset);
    }
    let sx: i64 = mul_div_round(offset.z, forward.x, MILLI_ONE);
    let sy: i64 = mul_div_round(offset.z, forward.y, MILLI_ONE);
    let sz: i64 = mul_div_round(offset.z, forward.z, MILLI_ONE);
    Vec3Milli {
        x: player_position.x + sx,
        y: player_position.y + sy + offset.y,
        z: player_position.z + sz,
    }
}

/// The vertical offset after the speed adjustment: the base height plus
/// the height bounds interpolated by twice the speed ratio
/// `current / max`.  The ratio is deliberately left unclamped, so a player
/// past half of the maximum speed extrapolates beyond the lower bound —
/// the open-ended behaviour the rig is tuned around.
pub open spec fn adjusted_height_spec(y_max: int, y_min: int, current: int, max: int) -> int
    recommends
        max >= 1,
{
    HEIGHT_BASE + y_max + rdiv((y_min - y_max) * (2 * current), max)
}

/// Offset adjustment bounds: a standing player gets the base height plus
/// the upper bound; a player at exactly half of the maximum speed (speed
/// ratio one) gets the base height plus the lower bound.
pub proof fn lemma_offset_adjustment_bounds(y_max: int, y_min: int, current: int, max: int)
    requires
        max >= 1,
    ensures
        current == 0 ==> adjusted_height_spec(y_max, y_min, current, max) == HEIGHT_BASE + y_max,
        2 * current == max ==> adjusted_height_spec(y_max, y_min, current, max) == HEIGHT_BASE
            + y_min,
{
    if current == 0 {
        lemma_rdiv_zero(max);
    } else if 2 * current == max {
        lemma_rdiv_exact(y_min - y_max, max);
    }
}

/// Recomputes the vertical offset from the player's speed.  Everything
/// else in the configuration stays as it was.
pub fn adjust_offset(config: &mut CameraRigConfig, current_speed: i64, max_speed: i64)
    requires
        old(config).wf(),
        1 <= max_speed <= COORD_LIMIT,
        -COORD_LIMIT <= current_speed <= COORD_LIMIT,
        -(RATE_LIMIT * max_speed) <= 2 * current_speed <= RATE_LIMIT * max_speed,
    ensures
        final(config).offset.y == adjusted_height_spec(
            old(config).y_offset_max as int,
            old(config).y_offset_min as int,
            current_speed as int,
            max_speed as int,
        ),
        final(config).offset.x == old(config).offset.x,
        final(config).offset.z == old(config).offset.z,
        final(config).y_offset_max == old(config).y_offset_max,
        final(config).y_offset_min == old(config).y_offset_min,
        final(config).angle == old(config).angle,
        final(config).easing == old(config).easing,
        final(config).mode == old(config).mode,
        final(config).desired_position == old(config).desired_position,
        final(config).wf(),
{
    let delta: i64 = config.y_offset_min - config.y_offset_max;
    let ratio_num: i64 = 2 * current_speed;
    let adjustment: i64 = mul_div_round(delta, ratio_num, max_speed);
    config.offset.y = HEIGHT_BASE + config.y_offset_max + adjustment;
}

/// The placement step: for the placed modes, publish the transform as it
/// stands, ease the position toward the desired position by the factor
/// `alpha_num / alpha_den`, and re-aim at the player with world up.  In
/// the frozen mode nothing moves and nothing is published.
pub fn place_camera(
    config: &CameraRigConfig,
    camera: &mut CameraTransform,
    observed: &mut CameraObservedState,
    player_position: &Vec3Milli,
    alpha_num: i64,
    alpha_den: i64,
)
    requires
        config.wf(),
        old(camera).wf(),
        player_position.in_limit(COORD_LIMIT as int),
        1 <= alpha_den <= DEN_LIMIT,
        0 <= alpha_num <= RATE_LIMIT * alpha_den,
    ensures
        config.mode is Fixed || config.mode is Free ==> {
            &&& final(observed).position == old(camera).position
            &&& final(observed).look_target == old(camera).look_target
            &&& final(observed).owner == old(observed).owner
            &&& final(camera).position == ease_vec_spec(
                old(camera).position,
                config.desired_position,
                alpha_num as int,
                alpha_den as int,
            )
            &&& final(camera).look_target == *player_position
        },
        config.mode is Follow ==> {
            &&& *final(camera) == *old(camera)
            &&& *final(observed) == *old(observed)
        },
        alpha_num <= alpha_den ==> final(camera).wf(),
{
    match config.mode {
        CameraMode::Fixed | CameraMode::Free => {
            observed.position = camera.position;
            observed.look_target = camera.look_target;
            camera.position = ease_vec(
                &camera.position,
                &config.desired_position,
                alpha_num,
                alpha_den,
            );
            camera.look_target = *player_position;
            proof {
                if alpha_num <= alpha_den {
                    lemma_ease_vec_within(
                        old(camera).position,
                        config.desired_position,
                        alpha_num as int,
                        alpha_den as int,
                        PLACEMENT_LIMIT as int,
                    );
                }
            }
        },
        CameraMode::Follow => {},
    }
}

/// One full rig tick, in the required order: derive the desired position
/// from the player and the yaw forward axis, adjust the vertical offset
/// from the player's speed, then place the camera.  The easing factor is
/// the frame delta time `dt_num / dt_den` seconds times the easing rate.
/// The host schedules this after its physics position sync and before its
/// transform propagation, so the rig sees this frame's physics result and
/// the propagation sees the rig's final transform.
pub fn rig_tick(
    config: &mut CameraRigConfig,
    camera: &mut CameraTransform,
    observed: &mut CameraObservedState,
    player: &PlayerData,
    forward: &Vec3Milli,
    dt_num: i64,
    dt_den: i64,
)
    requires
        old(config).wf(),
        old(camera).wf(),
        player.player_position.in_limit(COORD_LIMIT as int),
        forward.in_limit(MILLI_ONE as int),
        1 <= player.player_max_speed <= COORD_LIMIT,
        -COORD_LIMIT <= player.player_current_speed <= COORD_LIMIT,
        -(RATE_LIMIT * player.player_max_speed) <= 2 * player.player_current_speed <= RATE_LIMIT
            * player.player_max_speed,
        0 <= dt_num <= DT_NUM_LIMIT,
        1 <= dt_den <= DT_DEN_LIMIT,
        dt_num * old(config).easing <= EASING_LIMIT * dt_den,
    ensures
        final(config).desired_position == desired_position_spec(
            player.player_position,
            *forward,
            old(config).offset,
        ),
        final(config).offset.y == adjusted_height_spec(
            old(config).y_offset_max as int,
            old(config).y_offset_min as int,
            player.player_current_speed as int,
            player.player_max_speed as int,
        ),
        final(config).offset.x == old(config).offset.x,
        final(config).offset.z == old(config).offset.z,
        final(config).y_offset_max == old(config).y_offset_max,
        final(config).y_offset_min == old(config).y_offset_min,
        final(config).angle == old(config).angle,
        final(config).easing == old(config).easing,
        final(config).mode == old(config).mode,
        final(config).wf(),
        old(config).mode is Fixed || old(config).mode is Free ==> {
            &&& final(observed).position == old(camera).position
            &&& final(observed).look_target == old(camera).look_target
            &&& final(observed).owner == old(observed).owner
            &&& final(camera).position == ease_vec_spec(
                old(camera).position,
                desired_position_spec(player.player_position, *forward, old(config).offset),
                dt_num * old(config).easing,
                dt_den * MILLI_ONE,
            )
            &&& final(camera).look_target == player.player_position
        },
        old(config).mode is Follow ==> {
            &&& *final(camera) == *old(camera)
            &&& *final(observed) == *old(observed)
        },
        dt_num * old(config).easing <= MILLI_ONE * dt_den ==> final(camera).wf(),
{
    let desired: Vec3Milli = derive_desired_position(
        &player.player_position,
        forward,
        &config.offset,
    );
    config.desired_position = desired;
    adjust_offset(config, player.player_current_speed, player.player_max_speed);
    let alpha_num: i64 = dt_num * config.easing;
    let alpha_den: i64 = dt_den * MILLI_ONE;
    place_camera(config, camera, observed, &player.player_position, alpha_num, alpha_den);
}

} // verus!
