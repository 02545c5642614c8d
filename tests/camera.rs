use orbit_grid::{
    CameraEvent, CameraState, PanOffset, Pixel, Point3, DEFAULT_DISTANCE, DEFAULT_PITCH,
    DEFAULT_YAW, MAX_DISTANCE, MIN_DISTANCE, ORBIT_SENSITIVITY, PAN_LIMIT, PITCH_LIMIT,
};

fn level_camera() -> CameraState {
    CameraState::with_orbit(5_000_000, 0, 0)
}

#[test]
fn new_camera_has_defaults() {
    let c = CameraState::new();
    assert_eq!(c.target, Point3 { x: 0, y: 0, z: 0 });
    assert_eq!(c.distance, DEFAULT_DISTANCE);
    assert_eq!(c.yaw, DEFAULT_YAW);
    assert_eq!(c.pitch, DEFAULT_PITCH);
    assert_eq!(c.pan, PanOffset { right: 0, up: 0 });
    assert_eq!(c.last_cursor, None);
    assert!(!c.pan_held);
}

#[test]
fn with_orbit_brings_values_into_range() {
    let c = CameraState::with_orbit(0, -90_000_000, 100_000_000);
    assert_eq!(c.distance, MIN_DISTANCE);
    assert_eq!(c.yaw, 270_000_000);
    assert_eq!(c.pitch, PITCH_LIMIT);
    let c = CameraState::with_orbit(i64::MAX, 720_000_001, i64::MIN);
    assert_eq!(c.distance, MAX_DISTANCE);
    assert_eq!(c.yaw, 1);
    assert_eq!(c.pitch, -PITCH_LIMIT);
}

#[test]
fn move_without_press_changes_nothing() {
    let mut c = level_camera();
    let before = c;
    c.update(CameraEvent::PointerMoved { x: 300, y: -40 });
    c.update(CameraEvent::PointerMoved { x: 10, y: 900 });
    assert_eq!(c, before);
}

#[test]
fn move_after_release_changes_nothing() {
    let mut c = level_camera();
    c.update(CameraEvent::PointerPressed { x: 0, y: 0 });
    c.update(CameraEvent::PointerReleased);
    assert_eq!(c.last_cursor, None);
    let before = c;
    c.update(CameraEvent::PointerMoved { x: 50, y: 50 });
    assert_eq!(c, before);
}

#[test]
fn horizontal_drag_turns_yaw_only() {
    let mut c = level_camera();
    c.update(CameraEvent::PointerPressed { x: 100, y: 100 });
    assert_eq!(c.last_cursor, Some(Pixel { x: 100, y: 100 }));
    c.update(CameraEvent::PointerMoved { x: 110, y: 100 });
    assert_eq!(c.yaw, 10 * ORBIT_SENSITIVITY);
    assert_eq!(c.yaw, 2_500_000);
    assert_eq!(c.pitch, 0);
    assert_eq!(c.distance, 5_000_000);
    assert_eq!(c.pan, PanOffset { right: 0, up: 0 });
    assert_eq!(c.last_cursor, Some(Pixel { x: 110, y: 100 }));
}

#[test]
fn vertical_drag_turns_pitch_only() {
    let mut c = level_camera();
    c.update(CameraEvent::PointerPressed { x: 100, y: 100 });
    c.update(CameraEvent::PointerMoved { x: 100, y: 80 });
    assert_eq!(c.pitch, 20 * ORBIT_SENSITIVITY);
    assert_eq!(c.yaw, 0);
    c.update(CameraEvent::PointerMoved { x: 100, y: 120 });
    assert_eq!(c.pitch, -20 * ORBIT_SENSITIVITY);
}

#[test]
fn yaw_wraps_both_ways() {
    let mut c = CameraState::with_orbit(5_000_000, 359_000_000, 0);
    c.update(CameraEvent::PointerPressed { x: 0, y: 0 });
    c.update(CameraEvent::PointerMoved { x: 8, y: 0 });
    assert_eq!(c.yaw, 1_000_000);
    c.update(CameraEvent::PointerMoved { x: 0, y: 0 });
    assert_eq!(c.yaw, 359_000_000);
    let mut c = level_camera();
    c.update(CameraEvent::PointerPressed { x: 0, y: 0 });
    c.update(CameraEvent::PointerMoved { x: -4, y: 0 });
    assert_eq!(c.yaw, 359_000_000);
}

#[test]
fn repeated_upward_drags_stop_at_pitch_limit() {
    let mut c = level_camera();
    c.update(CameraEvent::PointerPressed { x: 0, y: 0 });
    let mut y: i32 = 0;
    for _ in 0..20 {
        y -= 100;
        c.update(CameraEvent::PointerMoved { x: 0, y });
        assert!(c.pitch <= PITCH_LIMIT);
    }
    assert_eq!(c.pitch, PITCH_LIMIT);
}

#[test]
fn repeated_downward_drags_stop_at_pitch_limit() {
    let mut c = level_camera();
    c.update(CameraEvent::PointerPressed { x: 0, y: 0 });
    let mut y: i32 = 0;
    for _ in 0..20 {
        y += 100;
        c.update(CameraEvent::PointerMoved { x: 0, y });
        assert!(c.pitch >= -PITCH_LIMIT);
    }
    assert_eq!(c.pitch, -PITCH_LIMIT);
}

#[test]
fn huge_drag_stays_clamped() {
    let mut c = level_camera();
    c.update(CameraEvent::PointerPressed { x: i32::MIN, y: i32::MAX });
    c.update(CameraEvent::PointerMoved { x: i32::MAX, y: i32::MIN });
    assert_eq!(c.pitch, PITCH_LIMIT);
    assert!(c.yaw >= 0 && c.yaw < 360_000_000);
}

#[test]
fn scroll_in_one_step_from_five() {
    let mut c = level_camera();
    c.update(CameraEvent::Scroll { steps: -1 });
    assert_eq!(c.distance, 4_500_000);
}

#[test]
fn scroll_in_at_minimum_stays() {
    let mut c = CameraState::with_orbit(MIN_DISTANCE, 0, 0);
    c.update(CameraEvent::Scroll { steps: -1 });
    assert_eq!(c.distance, MIN_DISTANCE);
}

#[test]
fn repeated_scroll_in_settles_at_minimum() {
    let mut c = level_camera();
    for _ in 0..100 {
        c.update(CameraEvent::Scroll { steps: -1 });
        assert!(c.distance >= MIN_DISTANCE);
    }
    assert_eq!(c.distance, MIN_DISTANCE);
}

#[test]
fn scroll_steps_compose() {
    let mut a = level_camera();
    a.update(CameraEvent::Scroll { steps: -3 });
    assert_eq!(a.distance, 3_645_000);
    let mut b = level_camera();
    b.update(CameraEvent::Scroll { steps: i32::MIN });
    assert_eq!(b.distance, MIN_DISTANCE);
}

#[test]
fn scroll_out_grows_and_stops_at_maximum() {
    let mut c = level_camera();
    c.update(CameraEvent::Scroll { steps: 1 });
    assert_eq!(c.distance, 5_555_555);
    c.update(CameraEvent::Scroll { steps: i32::MAX });
    assert_eq!(c.distance, MAX_DISTANCE);
    c.update(CameraEvent::Scroll { steps: 0 });
    assert_eq!(c.distance, MAX_DISTANCE);
}

#[test]
fn pan_drag_scales_with_distance() {
    let mut c = level_camera();
    c.update(CameraEvent::PanModifier { held: true });
    assert!(c.pan_held);
    c.update(CameraEvent::PointerPressed { x: 0, y: 0 });
    c.update(CameraEvent::PointerMoved { x: 10, y: -20 });
    assert_eq!(c.pan, PanOffset { right: -50_000, up: -100_000 });
    assert_eq!(c.yaw, 0);
    assert_eq!(c.pitch, 0);
    let mut far = CameraState::with_orbit(10_000_000, 0, 0);
    far.update(CameraEvent::PanModifier { held: true });
    far.update(CameraEvent::PointerPressed { x: 0, y: 0 });
    far.update(CameraEvent::PointerMoved { x: 10, y: 0 });
    assert_eq!(far.pan.right, -100_000);
}

#[test]
fn pan_rounds_toward_zero() {
    let mut c = CameraState::with_orbit(1_234_567, 0, 0);
    c.update(CameraEvent::PanModifier { held: true });
    c.update(CameraEvent::PointerPressed { x: 0, y: 0 });
    c.update(CameraEvent::PointerMoved { x: 1, y: 1 });
    assert_eq!(c.pan, PanOffset { right: -1234, up: 1234 });
    c.update(CameraEvent::PointerMoved { x: 0, y: 0 });
    assert_eq!(c.pan, PanOffset { right: 0, up: 0 });
}

#[test]
fn pan_stays_within_bounds() {
    let mut c = CameraState::with_orbit(MAX_DISTANCE, 0, 0);
    c.update(CameraEvent::PanModifier { held: true });
    c.update(CameraEvent::PointerPressed { x: i32::MIN, y: i32::MIN });
    c.update(CameraEvent::PointerMoved { x: i32::MAX, y: i32::MAX });
    assert_eq!(c.pan, PanOffset { right: -PAN_LIMIT, up: PAN_LIMIT });
}

#[test]
fn releasing_modifier_returns_to_orbit() {
    let mut c = level_camera();
    c.update(CameraEvent::PanModifier { held: true });
    c.update(CameraEvent::PanModifier { held: false });
    c.update(CameraEvent::PointerPressed { x: 0, y: 0 });
    c.update(CameraEvent::PointerMoved { x: 4, y: 0 });
    assert_eq!(c.yaw, 1_000_000);
    assert_eq!(c.pan, PanOffset { right: 0, up: 0 });
}

#[test]
fn other_events_are_ignored() {
    let mut c = CameraState::new();
    let before = c;
    c.update(CameraEvent::Other);
    assert_eq!(c, before);
}
