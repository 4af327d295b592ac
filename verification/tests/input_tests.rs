use falling_petals::input::{
    ControllerState, A_SCANCODE, C_SCANCODE, DOWN_SCANCODE, D_SCANCODE, MAX_ACCUM, SPACE_SCANCODE,
    S_SCANCODE, UP_SCANCODE, W_SCANCODE,
};

#[test]
fn movement_keys_set_their_flags() {
    let mut s = ControllerState::new();
    assert!(s.handle_keyboard_event(W_SCANCODE, true));
    assert!(s.forward_pressed);
    assert!(s.handle_keyboard_event(A_SCANCODE, true));
    assert!(s.left_pressed);
    assert!(s.handle_keyboard_event(S_SCANCODE, true));
    assert!(s.backward_pressed);
    assert!(s.handle_keyboard_event(D_SCANCODE, true));
    assert!(s.right_pressed);
    assert!(s.handle_keyboard_event(SPACE_SCANCODE, true));
    assert!(s.jump_pressed);
    assert!(s.handle_keyboard_event(C_SCANCODE, true));
    assert!(s.crouch_pressed);
    assert!(s.handle_keyboard_event(W_SCANCODE, false));
    assert!(!s.forward_pressed);
}

#[test]
fn arrow_keys_alias_the_letter_keys() {
    let mut s = ControllerState::new();
    assert!(s.handle_keyboard_event(UP_SCANCODE, true));
    assert!(s.forward_pressed);
    assert!(s.handle_keyboard_event(DOWN_SCANCODE, true));
    assert!(s.backward_pressed);
}

#[test]
fn unknown_scancodes_are_not_handled() {
    let mut s = ControllerState::new();
    assert!(!s.handle_keyboard_event(9999, true));
    assert_eq!(s, ControllerState::new());
}

#[test]
fn multipliers_reflect_opposing_keys() {
    let mut s = ControllerState::new();
    assert_eq!(s.forward_multiplier(), 0);
    s.handle_keyboard_event(W_SCANCODE, true);
    assert_eq!(s.forward_multiplier(), 1);
    s.handle_keyboard_event(S_SCANCODE, true);
    assert_eq!(s.forward_multiplier(), 0);
    s.handle_keyboard_event(W_SCANCODE, false);
    assert_eq!(s.forward_multiplier(), -1);
    s.handle_keyboard_event(D_SCANCODE, true);
    assert_eq!(s.right_muliplier(), 1);
    s.handle_keyboard_event(SPACE_SCANCODE, true);
    assert_eq!(s.jump_multiplier(), 1);
    s.handle_keyboard_event(C_SCANCODE, true);
    assert_eq!(s.jump_multiplier(), 0);
}

#[test]
fn mouse_motion_accumulates_opposite_the_pointer() {
    let mut s = ControllerState::new();
    s.handle_mouse_motion(10, -4);
    s.handle_mouse_motion(5, 1);
    let (pan, tilt) = s.get_pan_tilt_delta();
    assert_eq!(pan, -15);
    assert_eq!(tilt, 3);
    // Taking the delta resets the accumulators.
    let (pan2, tilt2) = s.get_pan_tilt_delta();
    assert_eq!((pan2, tilt2), (0, 0));
}

#[test]
fn mouse_accumulator_clamps_instead_of_overflowing() {
    let mut s = ControllerState::new();
    for _ in 0..5 {
        s.handle_mouse_motion(MAX_ACCUM, -MAX_ACCUM);
    }
    let (pan, tilt) = s.get_pan_tilt_delta();
    assert_eq!(pan, -MAX_ACCUM);
    assert_eq!(tilt, MAX_ACCUM);
}
