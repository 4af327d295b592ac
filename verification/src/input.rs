//! Keyboard and mouse state for driving the camera.
//!
//! The host unpacks window-system events into plain values (a scancode and a
//! pressed flag, or a mouse-motion delta) and feeds them here; each frame it
//! reads the movement multipliers and the accumulated pan/tilt delta.  The
//! multipliers are `+1`, `0` or `-1` depending on which of an opposing pair
//! of keys is held.

use crate::fixed::clamp_spec;
use vstd::prelude::*;

verus! {

/// Scancode of the W key (move forward).
pub const W_SCANCODE: u32 = 17;

/// Scancode of the A key (move left).
pub const A_SCANCODE: u32 = 30;

/// Scancode of the S key (move backward).
pub const S_SCANCODE: u32 = 31;

/// Scancode of the D key (move right).
pub const D_SCANCODE: u32 = 32;

/// Scancode of the space bar (move up).
pub const SPACE_SCANCODE: u32 = 57;

/// Scancode of the C key (move down).
pub const C_SCANCODE: u32 = 46;

/// Scancode of the up-arrow key (move forward).
pub const UP_SCANCODE: u32 = 57416;

/// Scancode of the left-arrow key (move left).
pub const LEFT_SCANCODE: u32 = 57419;

/// Scancode of the down-arrow key (move backward).
pub const DOWN_SCANCODE: u32 = 57424;

/// Scancode of the right-arrow key (move right).
pub const RIGHT_SCANCODE: u32 = 57421;

/// Largest magnitude the accumulated mouse delta can reach before clamping.
pub const MAX_ACCUM: i64 = 0x10_0000;

/// Which movement keys are held and how far the mouse has moved since the
/// last frame.
#[derive(Clone, Copy, Debug, PartialEq, Eq, Structural)]
pub struct ControllerState {
    pub forward_pressed: bool,
    pub backward_pressed: bool,
    pub left_pressed: bool,
    pub right_pressed: bool,
    pub jump_pressed: bool,
    pub crouch_pressed: bool,
    /// Accumulated pan delta, in `[-MAX_ACCUM, MAX_ACCUM]`.
    pub pan_delta: i64,
    /// Accumulated tilt delta, in `[-MAX_ACCUM, MAX_ACCUM]`.
    pub tilt_delta: i64,
}

/// The state a keyboard event leaves the controller in: a known scancode
/// records its pressed flag, anything else changes nothing.
pub open spec fn key_event_spec(s: ControllerState, scancode: u32, pressed: bool) -> ControllerState {
    if scancode == W_SCANCODE || scancode == UP_SCANCODE {
        ControllerState { forward_pressed: pressed, ..s }
    } else if scancode == A_SCANCODE || scancode == LEFT_SCANCODE {
        ControllerState { left_pressed: pressed, ..s }
    } else if scancode == S_SCANCODE || scancode == DOWN_SCANCODE {
        ControllerState { backward_pressed: pressed, ..s }
    } else if scancode == D_SCANCODE || scancode == RIGHT_SCANCODE {
        ControllerState { right_pressed: pressed, ..s }
    } else if scancode == SPACE_SCANCODE {
        ControllerState { jump_pressed: pressed, ..s }
    } else if scancode == C_SCANCODE {
        ControllerState { crouch_pressed: pressed, ..s }
    } else {
        s
    }
}

/// Whether the controller reacts to the scancode at all.
pub open spec fn key_known_spec(scancode: u32) -> bool {
    scancode == W_SCANCODE || scancode == UP_SCANCODE || scancode == A_SCANCODE || scancode
        == LEFT_SCANCODE || scancode == S_SCANCODE || scancode == DOWN_SCANCODE || scancode
        == D_SCANCODE || scancode == RIGHT_SCANCODE || scancode == SPACE_SCANCODE || scancode
        == C_SCANCODE
}

impl ControllerState {
    /// `+1` forward, `-1` backward, `0` when neither or both keys are held.
    pub open spec fn forward_multiplier_spec(self) -> int {
        (if self.forward_pressed {
            1int
        } else {
            0int
        }) - (if self.backward_pressed {
            1int
        } else {
            0int
        })
    }

    /// `+1` right, `-1` left, `0` when neither or both keys are held.
    pub open spec fn right_multiplier_spec(self) -> int {
        (if self.right_pressed {
            1int
        } else {
            0int
        }) - (if self.left_pressed {
            1int
        } else {
            0int
        })
    }

    /// `+1` up, `-1` down, `0` when neither or both keys are held.
    pub open spec fn jump_multiplier_spec(self) -> int {
        (if self.jump_pressed {
            1int
        } else {
            0int
        }) - (if self.crouch_pressed {
            1int
        } else {
            0int
        })
    }

    /// The accumulated deltas stay within their clamp band.
    pub open spec fn wf(self) -> bool {
        &&& -MAX_ACCUM <= self.pan_delta <= MAX_ACCUM
        &&& -MAX_ACCUM <= self.tilt_delta <= MAX_ACCUM
    }

    /// A controller with no keys held and no accumulated motion.
    pub fn new() -> (s: ControllerState)
        ensures
            s == ControllerState::default_spec(),
            s.wf(),
    {
        ControllerState {
            forward_pressed: false,
            backward_pressed: false,
            left_pressed: false,
            right_pressed: false,
            jump_pressed: false,
            crouch_pressed: false,
            pan_delta: 0,
            tilt_delta: 0,
        }
    }

    /// The all-clear controller state.
    pub open spec fn default_spec() -> ControllerState {
        ControllerState {
            forward_pressed: false,
            backward_pressed: false,
            left_pressed: false,
            right_pressed: false,
            jump_pressed: false,
            crouch_pressed: false,
            pan_delta: 0,
            tilt_delta: 0,
        }
    }

    /// Records a key press or release.  Returns whether the event was one
    /// the controller handles.
    pub fn handle_keyboard_event(&mut self, scancode: u32, pressed: bool) -> (handled: bool)
        ensures
            *final(self) == key_event_spec(*old(self), scancode, pressed),
            handled == key_known_spec(scancode),
    {
        if scancode == W_SCANCODE || scancode == UP_SCANCODE {
            self.forward_pressed = pressed;
            true
        } else if scancode == A_SCANCODE || scancode == LEFT_SCANCODE {
            self.left_pressed = pressed;
            true
        } else if scancode == S_SCANCODE || scancode == DOWN_SCANCODE {
            self.backward_pressed = pressed;
            true
        } else if scancode == D_SCANCODE || scancode == RIGHT_SCANCODE {
            self.right_pressed = pressed;
            true
        } else if scancode == SPACE_SCANCODE {
            self.jump_pressed = pressed;
            true
        } else if scancode == C_SCANCODE {
            self.crouch_pressed = pressed;
            true
        } else {
            false
        }
    }

    /// Accumulates a mouse movement: the view pans and tilts opposite the
    /// pointer motion, clamped so the accumulator cannot overflow however
    /// many events arrive between frames.
    pub fn handle_mouse_motion(&mut self, delta_x: i64, delta_y: i64)
        requires
            old(self).wf(),
            -MAX_ACCUM <= delta_x <= MAX_ACCUM,
            -MAX_ACCUM <= delta_y <= MAX_ACCUM,
        ensures
            final(self).wf(),
            final(self).pan_delta == clamp_spec(
                old(self).pan_delta - delta_x,
                -MAX_ACCUM as int,
                MAX_ACCUM as int,
            ),
            final(self).tilt_delta == clamp_spec(
                old(self).tilt_delta - delta_y,
                -MAX_ACCUM as int,
                MAX_ACCUM as int,
            ),
            final(self).forward_pressed == old(self).forward_pressed,
            final(self).backward_pressed == old(self).backward_pressed,
            final(self).left_pressed == old(self).left_pressed,
            final(self).right_pressed == old(self).right_pressed,
            final(self).jump_pressed == old(self).jump_pressed,
            final(self).crouch_pressed == old(self).crouch_pressed,
    {
        let pan: i64 = self.pan_delta - delta_x;
        self.pan_delta = if pan < -MAX_ACCUM {
            -MAX_ACCUM
        } else if pan > MAX_ACCUM {
            MAX_ACCUM
        } else {
            pan
        };
        let tilt: i64 = self.tilt_delta - delta_y;
        self.tilt_delta = if tilt < -MAX_ACCUM {
            -MAX_ACCUM
        } else if tilt > MAX_ACCUM {
            MAX_ACCUM
        } else {
            tilt
        };
    }

    /// Takes the accumulated pan/tilt delta and resets the accumulators.
    pub fn get_pan_tilt_delta(&mut self) -> (r: (i64, i64))
        ensures
            r.0 == old(self).pan_delta,
            r.1 == old(self).tilt_delta,
            final(self).pan_delta == 0,
            final(self).tilt_delta == 0,
            final(self).forward_pressed == old(self).forward_pressed,
            final(self).backward_pressed == old(self).backward_pressed,
            final(self).left_pressed == old(self).left_pressed,
            final(self).right_pressed == old(self).right_pressed,
            final(self).jump_pressed == old(self).jump_pressed,
            final(self).crouch_pressed == old(self).crouch_pressed,
            final(self).wf(),
    {
        let pan = self.pan_delta;
        let tilt = self.tilt_delta;
        self.pan_delta = 0;
        self.tilt_delta = 0;
        (pan, tilt)
    }

    /// `+1` when moving forward, `-1` when moving backward, `0` otherwise.
    pub fn forward_multiplier(&self) -> (m: i64)
        ensures
            m == self.forward_multiplier_spec(),
    {
        (if self.forward_pressed {
            1i64
        } else {
            0i64
        }) - (if self.backward_pressed {
            1i64
        } else {
            0i64
        })
    }

    /// `+1` when moving right, `-1` when moving left, `0` otherwise.
    pub fn right_muliplier(&self) -> (m: i64)
        ensures
            m == self.right_multiplier_spec(),
    {
        (if self.right_pressed {
            1i64
        } else {
            0i64
        }) - (if self.left_pressed {
            1i64
        } else {
            0i64
        })
    }

    /// `+1` when moving up, `-1` when moving down, `0` otherwise.
    pub fn jump_multiplier(&self) -> (m: i64)
        ensures
            m == self.jump_multiplier_spec(),
    {
        (if self.jump_pressed {
            1i64
        } else {
            0i64
        }) - (if self.crouch_pressed {
            1i64
        } else {
            0i64
        })
    }
}

impl Default for ControllerState {
    /// The all-clear controller.
    fn default() -> (s: ControllerState)
        ensures
            s == ControllerState::default_spec(),
    {
        ControllerState::new()
    }
}

} // verus!
