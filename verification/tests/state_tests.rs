use falling_petals::camera::UprightPerspectiveCamera;
use falling_petals::config::{FallingPetalsConfig, PetalTextureConfig, UvRect, FP_ONE};
use falling_petals::entity::{PetalState, Pose, Vec3};
use falling_petals::input::{ControllerState, W_SCANCODE};
use falling_petals::motion::MotionField;
use falling_petals::quat::identity;
use falling_petals::state::FallingPetalsState;

fn still_config() -> FallingPetalsConfig {
    // A deterministic scenario: a tiny volume, unit fall speed, and a
    // motion field whose amplitude caps are zero, so the field is zero.
    let mut c = FallingPetalsConfig::default();
    c.n_petals = 4;
    c.max_x = 10;
    c.max_y = 10;
    c.max_z = 10;
    c.fall_speed = 1;
    c.movement_period = 1;
    c.video_export_fps = 30;
    c.movement_n_frequencies = 1;
    c.movement_low_freq_max_amplitude = 0;
    c.movement_high_freq_max_amplitude = 0;
    c.min_rotation_speed = 0;
    c.max_rotation_speed = 0;
    c.min_scale = FP_ONE;
    c.max_scale = FP_ONE;
    c.player_movement_speed = 5;
    c.player_turn_speed = 1;
    c.petal_textures = vec![PetalTextureConfig {
        scale: FP_ONE,
        x_multiplier: FP_ONE,
        y_multiplier: FP_ONE,
        petal_coordinates: vec![UvRect { u: 0, v: 0, w: FP_ONE, h: FP_ONE }],
    }];
    assert!(c.validate());
    c
}

fn zero_field(period: u32) -> MotionField {
    MotionField {
        period,
        amplitudes: vec![0],
        phases: vec![0],
        values: vec![0; period as usize],
    }
}

fn petal_at(x: i64, y: i64, z: i64, id: u32) -> PetalState {
    PetalState {
        pose: Pose {
            position: Vec3 { x, y, z },
            orientation: identity(),
            aspect_ratio: FP_ONE,
            scale: FP_ONE,
        },
        variant_index: id,
        rotation: identity(),
    }
}

fn still_state() -> FallingPetalsState {
    let config = still_config();
    FallingPetalsState {
        config,
        camera: UprightPerspectiveCamera::new_default(),
        petal_variants: vec![falling_petals::config::PetalVariant {
            petal_texture_index: 0,
            u: 0,
            v: 0,
            w: FP_ONE,
            h: FP_ONE,
        }],
        petal_states: vec![
            petal_at(0, 10, -5, 0),
            petal_at(3, 10, -1, 1),
            petal_at(-2, 5, 2, 2),
            petal_at(7, -9, 8, 3),
        ],
        x_movement: zero_field(30),
        y_movement: zero_field(30),
        z_movement: zero_field(30),
        movement_frame_idx: 0,
        movement_period: 30,
    }
}

#[test]
fn one_tick_drops_every_petal_by_exactly_the_fall_speed() {
    let mut s = still_state();
    s.update();
    let mut ys: Vec<(u32, i64)> =
        s.petal_states.iter().map(|p| (p.variant_index, p.pose.position.y)).collect();
    ys.sort();
    assert_eq!(ys, vec![(0, 9), (1, 9), (2, 4), (3, -10)]);
    // No wrap occurred: every y moved by exactly -1.
}

#[test]
fn after_21_ticks_a_top_petal_has_wrapped_exactly_once() {
    let mut s = still_state();
    for _ in 0..21 {
        s.update();
    }
    // A petal that started at y == 10 has fallen 21 and wrapped up by one
    // full extent of 20: 10 - 21 + 20 == 9.
    let p0 = s.petal_states.iter().find(|p| p.variant_index == 0).unwrap();
    assert_eq!(p0.pose.position.y, 9);
    // One that started at y == -9 wrapped at the second tick: -9 - 21 + 20.
    let p3 = s.petal_states.iter().find(|p| p.variant_index == 3).unwrap();
    assert_eq!(p3.pose.position.y, -10);
}

#[test]
fn petals_remain_sorted_by_z_and_in_bounds_after_every_tick() {
    let mut s = FallingPetalsState::new(still_config());
    assert_eq!(s.petal_states.len(), 4);
    for _ in 0..50 {
        s.update();
        for w in s.petal_states.windows(2) {
            assert!(w[0].pose.position.z <= w[1].pose.position.z);
        }
        for p in s.petal_states.iter() {
            let v = p.pose.position;
            assert!(v.x.abs() <= 10 && v.y.abs() <= 10 && v.z.abs() <= 10);
        }
    }
}

#[test]
fn random_initial_state_is_inside_the_volume_and_sorted() {
    let mut c = still_config();
    c.n_petals = 200;
    c.max_x = 1000;
    c.max_y = 1000;
    c.max_z = 1000;
    c.movement_low_freq_max_amplitude = 50;
    c.movement_high_freq_max_amplitude = 5;
    c.movement_n_frequencies = 4;
    c.min_rotation_speed = 10;
    c.max_rotation_speed = 200;
    assert!(c.validate());
    let mut s = FallingPetalsState::new(c);
    assert_eq!(s.petal_states.len(), 200);
    for _ in 0..30 {
        s.update();
        for w in s.petal_states.windows(2) {
            assert!(w[0].pose.position.z <= w[1].pose.position.z);
        }
        for p in s.petal_states.iter() {
            let v = p.pose.position;
            assert!(v.x.abs() <= 1000 && v.y.abs() <= 1000 && v.z.abs() <= 1000);
        }
    }
}

#[test]
fn tick_index_wraps_at_the_period() {
    let mut s = still_state();
    for expected in [1u32, 2, 3] {
        s.update();
        assert_eq!(s.movement_frame_idx, expected);
    }
    for _ in 3..30 {
        s.update();
    }
    assert_eq!(s.movement_frame_idx, 0);
}

#[test]
fn held_forward_key_moves_the_camera() {
    let mut s = still_state();
    let mut input = ControllerState::new();
    input.handle_keyboard_event(W_SCANCODE, true);
    let before = s.camera.location;
    s.update_based_on_input_state(&mut input, false);
    assert_eq!(s.camera.location.x, before.x + 5);
    assert_eq!(s.camera.location.z, before.z);
}

#[test]
fn mouse_look_consumes_the_accumulated_delta() {
    let mut s = still_state();
    let mut input = ControllerState::new();
    input.handle_mouse_motion(-100, 0);
    s.update_based_on_input_state(&mut input, true);
    assert_eq!(s.camera.pan_angle, 100);
    let (pan, tilt) = input.get_pan_tilt_delta();
    assert_eq!((pan, tilt), (0, 0));
}
