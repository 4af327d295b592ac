use falling_petals::camera::UprightPerspectiveCamera;
use falling_petals::entity::Vec3;
use falling_petals::trig::{QUARTER_TURN, TURN};

#[test]
fn default_camera_looks_along_positive_x() {
    let c = UprightPerspectiveCamera::new_default();
    assert_eq!(c.pan_angle, 0);
    assert_eq!(c.tilt_angle, 0);
    assert_eq!(c.location, Vec3 { x: 0, y: 0, z: 0 });
    assert_eq!(c.max_tilt, QUARTER_TURN);
    assert_eq!(c.min_tilt, -QUARTER_TURN);
}

#[test]
fn pan_wraps_modulo_a_full_turn() {
    let mut c = UprightPerspectiveCamera::new_default();
    c.pan_and_tilt(TURN + 5, 0);
    assert_eq!(c.pan_angle, 5);
    c.pan_and_tilt(-11, 0);
    assert_eq!(c.pan_angle, -6);
    // -6 + 3 turns is positive, so the remainder comes out positive.
    c.pan_and_tilt(3 * TURN, 0);
    assert_eq!(c.pan_angle, TURN - 6);
}

#[test]
fn tilt_clamps_to_a_quarter_turn() {
    let mut c = UprightPerspectiveCamera::new_default();
    c.pan_and_tilt(0, QUARTER_TURN + 1000);
    assert_eq!(c.tilt_angle, QUARTER_TURN);
    c.pan_and_tilt(0, -TURN);
    assert_eq!(c.tilt_angle, -QUARTER_TURN);
    c.pan_and_tilt(0, 100);
    assert_eq!(c.tilt_angle, -QUARTER_TURN + 100);
}

#[test]
fn tilt_does_not_affect_movement() {
    let mut c = UprightPerspectiveCamera::new_default();
    c.pan_and_tilt(0, QUARTER_TURN);
    c.move_relative_to_pan_angle(1000, 0, 0);
    // Fully tilted up, yet forward still moves along +x, not +y.
    assert_eq!(c.location, Vec3 { x: 1000, y: 0, z: 0 });
}

#[test]
fn forward_at_zero_pan_moves_along_positive_x() {
    let mut c = UprightPerspectiveCamera::new_default();
    c.move_relative_to_pan_angle(1000, 0, 0);
    assert_eq!(c.location, Vec3 { x: 1000, y: 0, z: 0 });
}

#[test]
fn right_and_up_at_zero_pan() {
    let mut c = UprightPerspectiveCamera::new_default();
    c.move_relative_to_pan_angle(0, 700, 25);
    assert_eq!(c.location, Vec3 { x: 0, y: 25, z: 700 });
}

#[test]
fn forward_at_quarter_turn_moves_along_negative_z() {
    let mut c = UprightPerspectiveCamera::new_default();
    c.pan_and_tilt(QUARTER_TURN, 0);
    c.move_relative_to_pan_angle(1000, 0, 0);
    assert_eq!(c.location, Vec3 { x: 0, y: 0, z: -1000 });
}

#[test]
fn right_at_quarter_turn_moves_along_positive_x() {
    let mut c = UprightPerspectiveCamera::new_default();
    c.pan_and_tilt(QUARTER_TURN, 0);
    c.move_relative_to_pan_angle(0, 1000, 0);
    assert_eq!(c.location, Vec3 { x: 1000, y: 0, z: 0 });
}
