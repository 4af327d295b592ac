//! An upright perspective camera: it can pan (turn side to side) and tilt
//! (look up and down) but cannot roll.  With zero rotation the camera points
//! along the positive x axis with y up and z to its right.
//!
//! Angles are in turn units ([`TURN`] per revolution).  Panning wraps modulo
//! a full turn, keeping the sign of the accumulated angle; tilting clamps to
//! the configured range, at most a quarter turn either way.  Translation is
//! rotated by the pan angle only — tilt never affects movement, giving a
//! walking-camera feel rather than a free-fly camera.  The projection
//! parameters (field of view, aspect ratio, clip planes) are carried as
//! 16.16 fixed-point scalars for the renderer to consume; building the
//! actual projection matrix is the renderer's job.

use crate::entity::Vec3;
use crate::fixed::{clamp_spec, div_t, div_trunc, mod_nonneg, rem_t, rem_trunc};
use crate::trig::{sine_fixed, sine_spec, QUARTER_TURN, SIN_SCALE, TURN};
use vstd::prelude::*;

verus! {

use vstd::arithmetic::div_mod::lemma_mod_multiples_vanish;

/// Largest translation input accepted per move call, in spatial units.
pub const MAX_MOVE: i64 = 0x100_0000_0000;

/// Largest pan or tilt change accepted per call, in turn units.
pub const MAX_ANGLE_DELTA: i64 = 0x1000_0000_0000_0000;

/// Largest camera coordinate accepted by a move, leaving room for the
/// translation itself.
pub const MAX_COORD_SUM: i64 = 0x1000_0000_0000;

/// A camera that pans and tilts but does not roll.
#[derive(Clone, Copy, Debug, PartialEq, Eq, Structural)]
pub struct UprightPerspectiveCamera {
    /// Focal point of the camera, in spatial units.
    pub location: Vec3,
    /// Facing in the horizontal plane, in turn units, in `(-TURN, TURN)`.
    pub pan_angle: i64,
    /// Up/down tilt, in turn units, within `[min_tilt, max_tilt]`.
    pub tilt_angle: i64,
    /// Vertical field of view, in turn units.
    pub fov_y: i64,
    /// Width over height of the viewport, 16.16 fixed point.
    pub aspect_ratio: i64,
    /// Near clipping plane distance, in spatial units.
    pub z_near: i64,
    /// Far clipping plane distance, in spatial units.
    pub z_far: i64,
    /// Largest allowed tilt, at most a quarter turn.
    pub max_tilt: i64,
    /// Smallest allowed tilt, at least minus a quarter turn.
    pub min_tilt: i64,
}

impl UprightPerspectiveCamera {
    /// Well-formedness of the angle state.
    pub open spec fn wf(self) -> bool {
        &&& -TURN < self.pan_angle < TURN
        &&& -QUARTER_TURN <= self.min_tilt <= self.max_tilt <= QUARTER_TURN
        &&& self.min_tilt <= self.tilt_angle <= self.max_tilt
    }

    /// A camera at the origin looking along positive x, with a quarter-turn
    /// field of view, square aspect, and tilt limited to a quarter turn
    /// either way.
    pub fn new_default() -> (c: UprightPerspectiveCamera)
        ensures
            c.wf(),
            c.location == (Vec3 { x: 0, y: 0, z: 0 }),
            c.pan_angle == 0,
            c.tilt_angle == 0,
            c.fov_y == QUARTER_TURN,
            c.aspect_ratio == 0x1_0000,
            c.z_near == 1,
            c.z_far == 1000,
            c.max_tilt == QUARTER_TURN,
            c.min_tilt == -QUARTER_TURN,
    {
        UprightPerspectiveCamera {
            location: Vec3 { x: 0, y: 0, z: 0 },
            pan_angle: 0,
            tilt_angle: 0,
            fov_y: QUARTER_TURN,
            aspect_ratio: 0x1_0000,
            z_near: 1,
            z_far: 1000,
            max_tilt: QUARTER_TURN,
            min_tilt: -QUARTER_TURN,
        }
    }

    /// A camera with the given pose and projection parameters and the
    /// default quarter-turn tilt limits.
    pub fn new(
        location: Vec3,
        pan_angle: i64,
        tilt_angle: i64,
        fov_y: i64,
        aspect_ratio: i64,
        z_near: i64,
        z_far: i64,
    ) -> (c: UprightPerspectiveCamera)
        requires
            -TURN < pan_angle < TURN,
            -QUARTER_TURN <= tilt_angle <= QUARTER_TURN,
        ensures
            c.wf(),
            c.location == location,
            c.pan_angle == pan_angle,
            c.tilt_angle == tilt_angle,
            c.fov_y == fov_y,
            c.aspect_ratio == aspect_ratio,
            c.z_near == z_near,
            c.z_far == z_far,
            c.max_tilt == QUARTER_TURN,
            c.min_tilt == -QUARTER_TURN,
    {
        UprightPerspectiveCamera {
            location,
            pan_angle,
            tilt_angle,
            fov_y,
            aspect_ratio,
            z_near,
            z_far,
            max_tilt: QUARTER_TURN,
            min_tilt: -QUARTER_TURN,
        }
    }

    /// Rotates the camera horizontally and vertically: the pan angle wraps
    /// modulo a full turn (keeping its sign, as the accumulated angle does),
    /// the tilt angle clamps to the configured range.  Wrapping and clamping
    /// are the whole contract; no input is rejected.
    pub fn pan_and_tilt(&mut self, pan_angle_change: i64, tilt_angle_change: i64)
        requires
            old(self).wf(),
            -MAX_ANGLE_DELTA <= pan_angle_change <= MAX_ANGLE_DELTA,
            -MAX_ANGLE_DELTA <= tilt_angle_change <= MAX_ANGLE_DELTA,
        ensures
            final(self).wf(),
            final(self).pan_angle == rem_t(
                old(self).pan_angle + pan_angle_change,
                TURN as int,
            ),
            final(self).tilt_angle == clamp_spec(
                old(self).tilt_angle + tilt_angle_change,
                old(self).min_tilt as int,
                old(self).max_tilt as int,
            ),
            final(self).location == old(self).location,
            final(self).fov_y == old(self).fov_y,
            final(self).aspect_ratio == old(self).aspect_ratio,
            final(self).z_near == old(self).z_near,
            final(self).z_far == old(self).z_far,
            final(self).max_tilt == old(self).max_tilt,
            final(self).min_tilt == old(self).min_tilt,
    {
        self.pan_angle = rem_trunc(self.pan_angle + pan_angle_change, TURN);
        let tilt: i64 = self.tilt_angle + tilt_angle_change;
        self.tilt_angle = if tilt < self.min_tilt {
            self.min_tilt
        } else if tilt > self.max_tilt {
            self.max_tilt
        } else {
            tilt
        };
    }

    /// Cosine of the pan angle, in `SIN_SCALE` units.
    pub open spec fn pan_cos(self) -> int {
        sine_spec((self.pan_angle + QUARTER_TURN) % (TURN as int))
    }

    /// Sine of the pan angle, in `SIN_SCALE` units.
    pub open spec fn pan_sin(self) -> int {
        sine_spec((self.pan_angle as int) % (TURN as int))
    }

    /// The translation a move by `(forward, right, up)` produces at the
    /// current pan angle: the horizontal components are rotated by the pan
    /// angle (tilt is excluded from translation), the vertical component
    /// passes through.
    pub open spec fn pan_translation(self, forward: int, right: int, up: int) -> Vec3 {
        Vec3 {
            x: div_t(forward * self.pan_cos() + right * self.pan_sin(), SIN_SCALE as int) as i64,
            y: up as i64,
            z: div_t(-forward * self.pan_sin() + right * self.pan_cos(), SIN_SCALE as int) as i64,
        }
    }

    /// Where a move by `(forward, right, up)` puts the camera.
    pub open spec fn moved_location(self, forward: int, right: int, up: int) -> Vec3 {
        Vec3 {
            x: (self.location.x + self.pan_translation(forward, right, up).x) as i64,
            y: (self.location.y + self.pan_translation(forward, right, up).y) as i64,
            z: (self.location.z + self.pan_translation(forward, right, up).z) as i64,
        }
    }

    /// Moves the camera relative to its current pan orientation (but not its
    /// tilt).
    pub fn move_relative_to_pan_angle(&mut self, forward: i64, right: i64, up: i64)
        requires
            old(self).wf(),
            -MAX_MOVE <= forward <= MAX_MOVE,
            -MAX_MOVE <= right <= MAX_MOVE,
            -MAX_MOVE <= up <= MAX_MOVE,
            -MAX_COORD_SUM <= old(self).location.x <= MAX_COORD_SUM,
            -MAX_COORD_SUM <= old(self).location.y <= MAX_COORD_SUM,
            -MAX_COORD_SUM <= old(self).location.z <= MAX_COORD_SUM,
        ensures
            final(self).wf(),
            final(self).location.x == old(self).location.x + old(self).pan_translation(
                forward as int,
                right as int,
                up as int,
            ).x,
            final(self).location.y == old(self).location.y + old(self).pan_translation(
                forward as int,
                right as int,
                up as int,
            ).y,
            final(self).location.z == old(self).location.z + old(self).pan_translation(
                forward as int,
                right as int,
                up as int,
            ).z,
            final(self).pan_angle == old(self).pan_angle,
            final(self).tilt_angle == old(self).tilt_angle,
            final(self).fov_y == old(self).fov_y,
            final(self).aspect_ratio == old(self).aspect_ratio,
            final(self).z_near == old(self).z_near,
            final(self).z_far == old(self).z_far,
            final(self).max_tilt == old(self).max_tilt,
            final(self).min_tilt == old(self).min_tilt,
    {
        let sin_arg: i64 = mod_nonneg(self.pan_angle + TURN, TURN);
        let cos_arg: i64 = mod_nonneg(self.pan_angle + QUARTER_TURN + TURN, TURN);
        proof {
            lemma_mod_multiples_vanish(1, self.pan_angle as int, TURN as int);
            lemma_mod_multiples_vanish(
                1,
                self.pan_angle + QUARTER_TURN,
                TURN as int,
            );
        }
        let s: i64 = sine_fixed(sin_arg);
        let c: i64 = sine_fixed(cos_arg);
        proof {
            crate::fixed::lemma_product_range(
                forward as int,
                c as int,
                MAX_MOVE as int,
                SIN_SCALE as int,
            );
            crate::fixed::lemma_product_range(
                forward as int,
                s as int,
                MAX_MOVE as int,
                SIN_SCALE as int,
            );
            crate::fixed::lemma_product_range(
                right as int,
                c as int,
                MAX_MOVE as int,
                SIN_SCALE as int,
            );
            crate::fixed::lemma_product_range(
                right as int,
                s as int,
                MAX_MOVE as int,
                SIN_SCALE as int,
            );
            crate::fixed::lemma_product_range(
                -forward as int,
                s as int,
                MAX_MOVE as int,
                SIN_SCALE as int,
            );
            assert((2 * MAX_MOVE) * SIN_SCALE == 2 * (MAX_MOVE * SIN_SCALE)) by (nonlinear_arith);
        }
        let dx: i64 = div_trunc(forward * c + right * s, SIN_SCALE);
        let dz: i64 = div_trunc(-forward * s + right * c, SIN_SCALE);
        proof {
            crate::fixed::lemma_div_t_bounded(
                forward * c + right * s,
                SIN_SCALE as int,
                2 * MAX_MOVE as int,
            );
            crate::fixed::lemma_div_t_bounded(
                -forward * s + right * c,
                SIN_SCALE as int,
                2 * MAX_MOVE as int,
            );
        }
        self.location = Vec3 {
            x: self.location.x + dx,
            y: self.location.y + up,
            z: self.location.z + dz,
        };
    }
}

} // verus!
