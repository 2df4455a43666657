use pixel_rig::error::ConfigError;
use pixel_rig::milli::{ease_axis, mul_div_round};
use pixel_rig::player::PlayerData;
use pixel_rig::rig::{
    adjust_offset, derive_desired_position, position_camera, rig_tick, shift_down, shift_up,
    CameraMode, CameraObservedState, CameraRigConfig, CameraTransform,
};
use pixel_rig::vec3::{ease_vec, Vec3Milli};

fn v(x: i64, y: i64, z: i64) -> Vec3Milli {
    Vec3Milli { x, y, z }
}

fn l1(a: Vec3Milli, b: Vec3Milli) -> i64 {
    (a.x - b.x).abs() + (a.y - b.y).abs() + (a.z - b.z).abs()
}

fn config_with(y_offset_max: i64, y_offset_min: i64, mode: CameraMode) -> CameraRigConfig {
    CameraRigConfig::new(v(0, 6500, 10000), y_offset_max, y_offset_min, 0, 2000, mode).unwrap()
}

#[test]
fn shift_up_always_lands_on_free() {
    assert_eq!(shift_up(CameraMode::Fixed), CameraMode::Free);
    assert_eq!(shift_up(CameraMode::Free), CameraMode::Free);
    assert_eq!(shift_up(CameraMode::Follow), CameraMode::Free);
}

#[test]
fn shift_down_always_lands_on_follow() {
    assert_eq!(shift_down(CameraMode::Fixed), CameraMode::Follow);
    assert_eq!(shift_down(CameraMode::Free), CameraMode::Follow);
    assert_eq!(shift_down(CameraMode::Follow), CameraMode::Follow);
}

#[test]
fn inverted_height_bounds_are_rejected() {
    let r = CameraRigConfig::new(v(0, 6500, 10000), 2000, 6000, 0, 2000, CameraMode::Fixed);
    assert_eq!(r.unwrap_err(), ConfigError::OffsetBoundsInverted);
}

#[test]
fn non_positive_easing_is_rejected() {
    let r = CameraRigConfig::new(v(0, 6500, 10000), 6000, 2000, 0, 0, CameraMode::Fixed);
    assert_eq!(r.unwrap_err(), ConfigError::NonPositiveEasing);
    let r = CameraRigConfig::new(v(0, 6500, 10000), 6000, 2000, 0, -500, CameraMode::Fixed);
    assert_eq!(r.unwrap_err(), ConfigError::NonPositiveEasing);
}

#[test]
fn player_new_doubles_base_speed_into_max() {
    let p = PlayerData::new(5000);
    assert_eq!(p.player_base_speed, 5000);
    assert_eq!(p.player_current_speed, 5000);
    assert_eq!(p.player_max_speed, 10000);
    assert_eq!(p.player_position, v(0, 0, 0));
    assert_eq!(p.jump_stage, 0);
    assert!(p.kicked_wall.is_none());
}

#[test]
fn rounding_is_nearest_half_away_from_zero() {
    assert_eq!(mul_div_round(5, 1, 2), 3);
    assert_eq!(mul_div_round(-5, 1, 2), -3);
    assert_eq!(mul_div_round(7, 0, 5), 0);
    assert_eq!(mul_div_round(1000, 333, 1000), 333);
}

#[test]
fn standing_player_gets_upper_height_bound() {
    // Speed ratio zero: vertical offset is the 2.5-unit base plus y_offset_max.
    let mut config = config_with(6000, 2000, CameraMode::Fixed);
    adjust_offset(&mut config, 0, 1000);
    assert_eq!(config.offset.y, 2500 + 6000);
}

#[test]
fn half_max_speed_gets_lower_height_bound() {
    // Twice the speed ratio equals one: base plus y_offset_min.
    let mut config = config_with(6000, 2000, CameraMode::Fixed);
    adjust_offset(&mut config, 500, 1000);
    assert_eq!(config.offset.y, 2500 + 2000);
}

#[test]
fn full_speed_extrapolates_past_lower_bound() {
    // The ratio is deliberately unclamped: at the maximum speed the lerp
    // parameter is two, so the height lands past y_offset_min by the whole
    // bound spread.
    let mut config = config_with(6000, 2000, CameraMode::Fixed);
    adjust_offset(&mut config, 1000, 1000);
    assert_eq!(config.offset.y, 2500 + 6000 + 2 * (2000 - 6000));
}

#[test]
fn desired_position_follows_yaw_and_offsets() {
    // Yaw of 90 degrees: the forward axis is -X.
    let d = derive_desired_position(&v(1000, 2000, 3000), &v(-1000, 0, 0), &v(0, 6500, 10000));
    assert_eq!(d, v(-9000, 8500, 3000));
}

#[test]
fn desired_position_rounds_scaled_forward() {
    // 5 milli-units times -0.5 is -2.5, which rounds away from zero to -3.
    let d = derive_desired_position(&v(0, 0, 0), &v(0, 0, -500), &v(0, 0, 5));
    assert_eq!(d, v(0, 0, -3));
}

#[test]
fn camera_goes_to_fixed_vantage_point() {
    let mut camera = CameraTransform {
        position: v(1, 2, 3),
        look_target: v(4, 5, 6),
    };
    position_camera(&mut camera);
    assert_eq!(camera.position, v(10000, 10000, 10000));
    assert_eq!(camera.look_target, v(0, 0, 0));
}

#[test]
fn easing_moves_at_least_one_milli_unit() {
    // 10 milli-units at a factor of 1/1000 would round to no movement at
    // all; easing still advances one milli-unit so it always makes
    // progress.
    assert_eq!(ease_axis(0, 10, 1, 1000), 1);
}

#[test]
fn easing_factor_above_one_overshoots() {
    assert_eq!(ease_axis(0, 100, 3, 2), 150);
}

#[test]
fn easing_strictly_approaches_and_reaches_target() {
    let target = v(0, 0, 0);
    let mut pos = v(9000, -5000, 100);
    let mut dist = l1(pos, target);
    let mut ticks = 0u32;
    while pos != target {
        // One thirtieth per tick: delta time 1/60 at an easing rate of 2.
        pos = ease_vec(&pos, &target, 1, 30);
        let next = l1(pos, target);
        assert!(next < dist);
        dist = next;
        ticks += 1;
        assert!(ticks <= 14100);
    }
    assert_eq!(pos, target);
}

#[test]
fn frozen_mode_leaves_camera_and_snapshot_alone() {
    let mut config = config_with(4000, 4000, CameraMode::Follow);
    let mut camera = CameraTransform {
        position: v(100, 200, 300),
        look_target: v(7, 8, 9),
    };
    let mut observed = CameraObservedState {
        position: v(0, 0, 0),
        look_target: v(0, 0, 0),
        owner: 7,
    };
    let player = PlayerData::new(5000);
    rig_tick(
        &mut config,
        &mut camera,
        &mut observed,
        &player,
        &v(0, 0, -1000),
        1,
        60,
    );
    // The placement step is a no-op, but the derivation and the offset
    // adjustment still ran.
    assert_eq!(camera.position, v(100, 200, 300));
    assert_eq!(camera.look_target, v(7, 8, 9));
    assert_eq!(observed.owner, 7);
    assert_eq!(observed.position, v(0, 0, 0));
    assert_eq!(config.desired_position, v(0, 6500, -10000));
}

#[test]
fn full_tick_at_max_speed_eases_toward_desired() {
    // Player at the origin moving along +Z at the maximum speed, yaw zero
    // (forward axis -Z), offset (0, 6.5, 10), one tick of 1/60 s at an
    // easing rate of 2: the camera moves 1/30 of the way to the desired
    // position behind the player, and aims at the player itself.
    let mut config = config_with(4000, 4000, CameraMode::Fixed);
    let mut camera = CameraTransform {
        position: v(0, 0, 0),
        look_target: v(5000, 5000, 5000),
    };
    let mut observed = CameraObservedState {
        position: v(1, 1, 1),
        look_target: v(2, 2, 2),
        owner: 7,
    };
    let mut player = PlayerData::new(5000);
    player.player_current_speed = 10000;
    player.player_velocity = v(0, 0, 10000);
    assert_eq!(player.player_max_speed, 10000);
    rig_tick(
        &mut config,
        &mut camera,
        &mut observed,
        &player,
        &v(0, 0, -1000),
        1,
        60,
    );
    // Desired: origin + forward * 10 + up * 6.5 = (0, 6.5, -10).
    assert_eq!(config.desired_position, v(0, 6500, -10000));
    // The snapshot published the transform as it stood before easing.
    assert_eq!(observed.position, v(0, 0, 0));
    assert_eq!(observed.look_target, v(5000, 5000, 5000));
    assert_eq!(observed.owner, 7);
    // One thirtieth of the remaining distance, rounded to the nearest
    // milli-unit: 6500 / 30 rounds to 217, -10000 / 30 rounds to -333.
    assert_eq!(camera.position, v(0, 217, -333));
    // The look-at target is the player's position, not the desired one.
    assert_eq!(camera.look_target, v(0, 0, 0));
    // At the lerp parameter two the equal height bounds keep the vertical
    // offset at base + 4: still 6.5 units.
    assert_eq!(config.offset.y, 6500);
}

#[test]
fn repeated_ticks_with_same_input_converge_on_desired() {
    let mut config = config_with(4000, 4000, CameraMode::Free);
    let mut camera = CameraTransform {
        position: v(20000, 0, 20000),
        look_target: v(0, 0, 0),
    };
    let mut observed = CameraObservedState {
        position: v(0, 0, 0),
        look_target: v(0, 0, 0),
        owner: 1,
    };
    let player = PlayerData::new(5000);
    let desired = v(0, 6500, -10000);
    let mut dist = l1(camera.position, desired);
    for _ in 0..60 {
        rig_tick(
            &mut config,
            &mut camera,
            &mut observed,
            &player,
            &v(0, 0, -1000),
            1,
            60,
        );
        assert_eq!(config.desired_position, desired);
        let next = l1(camera.position, desired);
        assert!(next < dist);
        dist = next;
    }
}
