//! The per-frame player record that the player-movement subsystem
//! publishes and the camera rig reads.

use vstd::prelude::*;

verus! {

use crate::milli::COORD_LIMIT;
use crate::vec3::Vec3Milli;

/// The player state, written once per frame by the movement subsystem and
/// read-only everywhere else.  Lengths and speeds are in milli-units;
/// `kicked_wall` holds the entity the player last kicked off, if any.
#[derive(Clone, Copy, Debug)]
pub struct PlayerData {
    pub player_position: Vec3Milli,
    pub player_velocity: Vec3Milli,
    pub distance_from_floor: i64,
    pub floor_normal: Vec3Milli,
    pub speed: i64,
    pub defacto_speed: i64,
    pub kicked_wall: Option<u64>,
    pub jump_stage: u8,
    pub player_base_speed: i64,
    pub player_current_speed: i64,
    pub player_max_speed: i64,
}

impl Default for PlayerData {
    /// The all-zero record: at the origin, at rest, touching nothing.
    fn default() -> (d: PlayerData)
        ensures
            d.player_position == (Vec3Milli { x: 0, y: 0, z: 0 }),
            d.player_velocity == (Vec3Milli { x: 0, y: 0, z: 0 }),
            d.distance_from_floor == 0,
            d.floor_normal == (Vec3Milli { x: 0, y: 0, z: 0 }),
            d.speed == 0,
            d.defacto_speed == 0,
            d.kicked_wall is None,
            d.jump_stage == 0,
            d.player_base_speed == 0,
            d.player_current_speed == 0,
            d.player_max_speed == 0,
    {
        PlayerData {
            player_position: Vec3Milli { x: 0, y: 0, z: 0 },
            player_velocity: Vec3Milli { x: 0, y: 0, z: 0 },
            distance_from_floor: 0,
            floor_normal: Vec3Milli { x: 0, y: 0, z: 0 },
            speed: 0,
            defacto_speed: 0,
            kicked_wall: None,
            jump_stage: 0,
            player_base_speed: 0,
            player_current_speed: 0,
            player_max_speed: 0,
        }
    }
}

impl PlayerData {
    /// Builds the startup record for a player with the given base speed:
    /// the current speed starts at the base, and the maximum is twice the
    /// base.  Everything else is the all-zero default.
    pub fn new(speed: i64) -> (d: PlayerData)
        requires
            -COORD_LIMIT / 2 <= speed <= COORD_LIMIT / 2,
        ensures
            d.player_base_speed == speed,
            d.player_current_speed == speed,
            d.player_max_speed == 2 * speed,
            d.player_position == (Vec3Milli { x: 0, y: 0, z: 0 }),
            d.player_velocity == (Vec3Milli { x: 0, y: 0, z: 0 }),
            d.distance_from_floor == 0,
            d.floor_normal == (Vec3Milli { x: 0, y: 0, z: 0 }),
            d.speed == 0,
            d.defacto_speed == 0,
            d.kicked_wall is None,
            d.jump_stage == 0,
    {
        let base: PlayerData = Default::default();
        PlayerData {
            player_base_speed: speed,
            player_current_speed: speed,
            player_max_speed: speed * 2,
            ..base
        }
    }
}

} // verus!
