use pixel_rig::compositor::{Compositor, CompositorRoles};
use pixel_rig::error::ConfigError;
use pixel_rig::scale::{compute_scale, compute_zoom, FixedResolution, Scale};

fn res_854x480() -> FixedResolution {
    FixedResolution::new(854, 480).unwrap()
}

fn roles() -> CompositorRoles {
    CompositorRoles {
        scene_camera: 1,
        display_camera: 2,
        canvas: 3,
    }
}

#[test]
fn scale_at_native_window_is_point_eight() {
    let res = res_854x480();
    let s = compute_scale(&res, 854, 480);
    assert_eq!(s, Scale { num: 4, den: 5 });
    assert_eq!(s.num as f64 / s.den as f64, 0.8);
}

#[test]
fn scale_at_double_window_is_point_four() {
    let res = res_854x480();
    let s = compute_scale(&res, 1708, 960);
    assert_eq!(s, Scale { num: 4, den: 10 });
    assert_eq!(s.num as f64 / s.den as f64, 0.4);
}

#[test]
fn scale_at_tiny_window_clamps_to_point_eight() {
    // A 100x100 window is smaller than the fixed resolution on both axes;
    // the zoom clamps to one instead of dividing by zero.
    let res = res_854x480();
    let s = compute_scale(&res, 100, 100);
    assert_eq!(s, Scale { num: 4, den: 5 });
    assert_eq!(s.num as f64 / s.den as f64, 0.8);
}

#[test]
fn scale_is_always_positive_and_finite() {
    let res = res_854x480();
    for &(w, h) in &[(1u32, 1u32), (100, 2000), (2000, 100), (854, 480), (9999, 7777)] {
        let s = compute_scale(&res, w, h);
        let value = s.num as f64 / s.den as f64;
        assert!(value.is_finite());
        assert!(value > 0.0);
    }
}

#[test]
fn zoom_rounds_limiting_axis_to_nearest() {
    let res = res_854x480();
    // Height is the limiting axis: 700 / 480 = 1.458... rounds to 1.
    assert_eq!(compute_zoom(&res, 2000, 700), 1);
    // 740 / 480 = 1.541... rounds to 2.
    assert_eq!(compute_zoom(&res, 2000, 740), 2);
    // Width is the limiting axis: 2562 / 854 = 3 exactly.
    assert_eq!(compute_zoom(&res, 2562, 2000), 3);
}

#[test]
fn zoom_rounds_halves_up() {
    // Both ratios are exactly 1.5 at 1281x720; the limiting ratio rounds
    // half up to 2.
    let res = res_854x480();
    assert_eq!(compute_zoom(&res, 1281, 720), 2);
}

#[test]
fn zero_resolution_is_rejected() {
    assert_eq!(
        FixedResolution::new(0, 480),
        Err(ConfigError::ZeroResolution)
    );
    assert_eq!(
        FixedResolution::new(854, 0),
        Err(ConfigError::ZeroResolution)
    );
}

#[test]
fn initialize_sizes_buffer_to_fixed_resolution() {
    let res = res_854x480();
    let c = Compositor::initialize(res, 1920, 1080, roles());
    assert_eq!(c.buffer.width, 854);
    assert_eq!(c.buffer.height, 480);
    // Width is the limiting axis: 1920 / 854 = 2.248... rounds to 2,
    // giving scale 0.8 / 2.
    assert_eq!(c.scale, Scale { num: 4, den: 10 });
    // The scene camera renders before the display camera, and the display
    // pass sits on its own render layer.
    assert!(c.scene_order < c.display_order);
    assert_ne!(c.display_layer, 0);
}

#[test]
fn resize_is_idempotent() {
    let res = res_854x480();
    let mut once = Compositor::initialize(res, 854, 480, roles());
    once.on_window_resized(1708, 960);
    let mut twice = once;
    twice.on_window_resized(1708, 960);
    assert_eq!(once, twice);
}

#[test]
fn resize_keeps_buffer_and_updates_scale() {
    let res = res_854x480();
    let mut c = Compositor::initialize(res, 854, 480, roles());
    assert_eq!(c.scale, Scale { num: 4, den: 5 });
    c.on_window_resized(2562, 1440);
    assert_eq!(c.scale, Scale { num: 4, den: 15 });
    assert_eq!(c.buffer.width, 854);
    assert_eq!(c.buffer.height, 480);
    assert_eq!(c.fixed, res);
}

#[test]
fn last_resize_of_a_frame_wins() {
    let res = res_854x480();
    let mut drained = Compositor::initialize(res, 854, 480, roles());
    drained.on_window_resized(1708, 960);
    drained.on_window_resized(2562, 1440);
    let mut only_last = Compositor::initialize(res, 854, 480, roles());
    only_last.on_window_resized(2562, 1440);
    assert_eq!(drained, only_last);
}
