//! Fixed-point quaternions for sprite orientations.
//!
//! Components are scaled by [`QUAT_ONE`], so the identity rotation is
//! `(QUAT_ONE, 0, 0, 0)`.  A quaternion is well formed ([`unit_norm`]) when
//! every component fits in `[-QUAT_ONE, QUAT_ONE]` and its squared norm lies
//! within [`QUAT_NORM_TOL`] of `QUAT_ONE^2`.  Orientations are composed with
//! [`rotate`], which multiplies and then renormalizes, so the unit-norm
//! invariant is preserved across arbitrarily many ticks.

use crate::fixed::{
    div_t,
    div_trunc,
    isqrt,
    lemma_div_t_bounded,
    lemma_product_range,
    lemma_square_monotone,
    sqrt_floor,
};
use crate::trig::{sine_fixed, sine_spec, QUARTER_TURN, SIN_SCALE, TURN};
use vstd::prelude::*;

verus! {

/// Fixed-point scale of quaternion components: one is `QUAT_ONE`.
pub const QUAT_ONE: i64 = 65536;

/// Width of the accepted band around `QUAT_ONE^2` for the squared norm of a
/// well-formed quaternion (about one part in a thousand of `QUAT_ONE^2`).
pub const QUAT_NORM_TOL: i64 = 0x40_0000;

/// Smallest accepted squared norm: `QUAT_ONE^2 - QUAT_NORM_TOL`.
pub const NORM_SQ_LO: i64 = 0xfc0_0000;

/// Largest accepted squared norm: `QUAT_ONE^2 + QUAT_NORM_TOL`.
pub const NORM_SQ_HI: i64 = 0x1_0040_0000;

/// A quaternion with components scaled by `QUAT_ONE`.
#[derive(Clone, Copy, Debug, PartialEq, Eq, Structural)]
pub struct Quat {
    pub w: i64,
    pub x: i64,
    pub y: i64,
    pub z: i64,
}

/// Squared norm of `q`, in units of `QUAT_ONE^2`.
pub open spec fn norm_sq_spec(q: Quat) -> int {
    q.w * q.w + q.x * q.x + q.y * q.y + q.z * q.z
}

/// Every component of `q` lies in `[-b, b]`.
pub open spec fn bounded(q: Quat, b: int) -> bool {
    &&& -b <= q.w <= b
    &&& -b <= q.x <= b
    &&& -b <= q.y <= b
    &&& -b <= q.z <= b
}

/// `n` lies in the accepted band around `QUAT_ONE^2`.
pub open spec fn in_band(n: int) -> bool {
    NORM_SQ_LO <= n <= NORM_SQ_HI
}

/// Well-formedness of an orientation or spin quaternion: components fit in
/// one unit and the squared norm is within tolerance of `QUAT_ONE^2`.
pub open spec fn unit_norm(q: Quat) -> bool {
    bounded(q, QUAT_ONE as int) && in_band(norm_sq_spec(q))
}

/// `|c| <= b` implies `0 <= c^2 <= b^2`.
proof fn lemma_square_range(c: int, b: int)
    by (nonlinear_arith)
    requires
        -b <= c <= b,
    ensures
        0 <= c * c <= b * b,
{
}

/// The identity rotation.
pub fn identity() -> (q: Quat)
    ensures
        q == (Quat { w: QUAT_ONE, x: 0, y: 0, z: 0 }),
        unit_norm(q),
{
    Quat { w: QUAT_ONE, x: 0, y: 0, z: 0 }
}

/// Computes the squared norm of `q`.
pub fn norm_sq(q: &Quat) -> (n: i64)
    requires
        bounded(*q, 0x10_0000),
    ensures
        n == norm_sq_spec(*q),
        0 <= n <= 0x4000_0000_0000,
{
    proof {
        lemma_square_range(q.w as int, 0x10_0000);
        lemma_square_range(q.x as int, 0x10_0000);
        lemma_square_range(q.y as int, 0x10_0000);
        lemma_square_range(q.z as int, 0x10_0000);
    }
    q.w * q.w + q.x * q.x + q.y * q.y + q.z * q.z
}

/// Scalar component of the Hamilton product, before rescaling.
pub open spec fn raw_w(a: Quat, b: Quat) -> int {
    a.w * b.w - a.x * b.x - a.y * b.y - a.z * b.z
}

/// First vector component of the Hamilton product, before rescaling.
pub open spec fn raw_x(a: Quat, b: Quat) -> int {
    a.w * b.x + a.x * b.w + a.y * b.z - a.z * b.y
}

/// Second vector component of the Hamilton product, before rescaling.
pub open spec fn raw_y(a: Quat, b: Quat) -> int {
    a.w * b.y - a.x * b.z + a.y * b.w + a.z * b.x
}

/// Third vector component of the Hamilton product, before rescaling.
pub open spec fn raw_z(a: Quat, b: Quat) -> int {
    a.w * b.z + a.x * b.y - a.y * b.x + a.z * b.w
}

/// Hamilton product of `a` and `b`, rescaled back to `QUAT_ONE` units by a
/// truncating division of each component.
pub open spec fn mul_scaled_spec(a: Quat, b: Quat) -> Quat {
    Quat {
        w: div_t(raw_w(a, b), QUAT_ONE as int) as i64,
        x: div_t(raw_x(a, b), QUAT_ONE as int) as i64,
        y: div_t(raw_y(a, b), QUAT_ONE as int) as i64,
        z: div_t(raw_z(a, b), QUAT_ONE as int) as i64,
    }
}

/// Multiplies two quaternions and rescales the product to `QUAT_ONE` units.
pub fn mul_scaled(a: &Quat, b: &Quat) -> (r: Quat)
    requires
        bounded(*a, 2 * QUAT_ONE),
        bounded(*b, 2 * QUAT_ONE),
    ensures
        r == mul_scaled_spec(*a, *b),
        bounded(r, 16 * QUAT_ONE),
{
    proof {
        assert(2 * QUAT_ONE == 0x2_0000);
        assert((2 * QUAT_ONE) * (2 * QUAT_ONE) == 0x4_0000_0000) by (nonlinear_arith);
        lemma_product_range(a.w as int, b.w as int, 2 * QUAT_ONE, 2 * QUAT_ONE);
        lemma_product_range(a.w as int, b.x as int, 2 * QUAT_ONE, 2 * QUAT_ONE);
        lemma_product_range(a.w as int, b.y as int, 2 * QUAT_ONE, 2 * QUAT_ONE);
        lemma_product_range(a.w as int, b.z as int, 2 * QUAT_ONE, 2 * QUAT_ONE);
        lemma_product_range(a.x as int, b.w as int, 2 * QUAT_ONE, 2 * QUAT_ONE);
        lemma_product_range(a.x as int, b.x as int, 2 * QUAT_ONE, 2 * QUAT_ONE);
        lemma_product_range(a.x as int, b.y as int, 2 * QUAT_ONE, 2 * QUAT_ONE);
        lemma_product_range(a.x as int, b.z as int, 2 * QUAT_ONE, 2 * QUAT_ONE);
        lemma_product_range(a.y as int, b.w as int, 2 * QUAT_ONE, 2 * QUAT_ONE);
        lemma_product_range(a.y as int, b.x as int, 2 * QUAT_ONE, 2 * QUAT_ONE);
        lemma_product_range(a.y as int, b.y as int, 2 * QUAT_ONE, 2 * QUAT_ONE);
        lemma_product_range(a.y as int, b.z as int, 2 * QUAT_ONE, 2 * QUAT_ONE);
        lemma_product_range(a.z as int, b.w as int, 2 * QUAT_ONE, 2 * QUAT_ONE);
        lemma_product_range(a.z as int, b.x as int, 2 * QUAT_ONE, 2 * QUAT_ONE);
        lemma_product_range(a.z as int, b.y as int, 2 * QUAT_ONE, 2 * QUAT_ONE);
        lemma_product_range(a.z as int, b.z as int, 2 * QUAT_ONE, 2 * QUAT_ONE);
    }
    let rw: i64 = a.w * b.w - a.x * b.x - a.y * b.y - a.z * b.z;
    let rx: i64 = a.w * b.x + a.x * b.w + a.y * b.z - a.z * b.y;
    let ry: i64 = a.w * b.y - a.x * b.z + a.y * b.w + a.z * b.x;
    let rz: i64 = a.w * b.z + a.x * b.y - a.y * b.x + a.z * b.w;
    proof {
        lemma_div_t_bounded(rw as int, QUAT_ONE as int, 16 * QUAT_ONE);
        lemma_div_t_bounded(rx as int, QUAT_ONE as int, 16 * QUAT_ONE);
        lemma_div_t_bounded(ry as int, QUAT_ONE as int, 16 * QUAT_ONE);
        lemma_div_t_bounded(rz as int, QUAT_ONE as int, 16 * QUAT_ONE);
        assert(16 * QUAT_ONE * QUAT_ONE == 0x10_0000_0000);
    }
    Quat {
        w: div_trunc(rw, QUAT_ONE),
        x: div_trunc(rx, QUAT_ONE),
        y: div_trunc(ry, QUAT_ONE),
        z: div_trunc(rz, QUAT_ONE),
    }
}

/// `q` rescaled by `QUAT_ONE / sqrt(norm_sq(q))` with truncating division.
pub open spec fn rescaled_spec(q: Quat) -> Quat {
    let r = sqrt_floor(norm_sq_spec(q));
    Quat {
        w: div_t(q.w * QUAT_ONE, r) as i64,
        x: div_t(q.x * QUAT_ONE, r) as i64,
        y: div_t(q.y * QUAT_ONE, r) as i64,
        z: div_t(q.z * QUAT_ONE, r) as i64,
    }
}

/// Result of renormalizing `q`: the rescaled quaternion when its squared
/// norm lands in the accepted band, and nothing otherwise (in particular
/// nothing when `q` is the zero quaternion, which has no direction).
pub open spec fn renorm_spec(q: Quat) -> Option<Quat> {
    if norm_sq_spec(q) == 0 {
        None
    } else if in_band(norm_sq_spec(rescaled_spec(q))) {
        Some(rescaled_spec(q))
    } else {
        None
    }
}

/// Each component of a quaternion is bounded by the floor square root of its
/// squared norm.
proof fn lemma_component_le_root(c: int, rest: int, r: int)
    requires
        0 <= rest,
        0 <= r,
        c * c + rest < (r + 1) * (r + 1),
    ensures
        -r <= c <= r,
{
    if c > r {
        lemma_square_monotone(r + 1, c);
    }
    if c < -r {
        lemma_square_monotone(r + 1, -c);
        assert(c * c == (-c) * (-c)) by (nonlinear_arith);
    }
}

/// Renormalizes `q` to unit length, if its direction is defined and the
/// rescaled result passes the norm band check.
pub fn renormalized(q: &Quat) -> (r: Option<Quat>)
    requires
        bounded(*q, 0x10_0000),
    ensures
        r == renorm_spec(*q),
        r is Some ==> unit_norm(r->0),
{
    let n: i64 = norm_sq(q);
    if n == 0 {
        return None;
    }
    let root: i64 = isqrt(n);
    proof {
        assert(root >= 1) by (nonlinear_arith)
            requires
                1 <= n,
                0 <= root,
                (n as int) < ((root as int) + 1) * ((root as int) + 1),
        ;
        lemma_square_range(q.w as int, 0x10_0000);
        lemma_square_range(q.x as int, 0x10_0000);
        lemma_square_range(q.y as int, 0x10_0000);
        lemma_square_range(q.z as int, 0x10_0000);
        lemma_component_le_root(q.w as int, norm_sq_spec(*q) - q.w * q.w, root as int);
        lemma_component_le_root(q.x as int, norm_sq_spec(*q) - q.x * q.x, root as int);
        lemma_component_le_root(q.y as int, norm_sq_spec(*q) - q.y * q.y, root as int);
        lemma_component_le_root(q.z as int, norm_sq_spec(*q) - q.z * q.z, root as int);
        lemma_product_range(q.w as int, QUAT_ONE as int, root as int, QUAT_ONE as int);
        lemma_product_range(q.x as int, QUAT_ONE as int, root as int, QUAT_ONE as int);
        lemma_product_range(q.y as int, QUAT_ONE as int, root as int, QUAT_ONE as int);
        lemma_product_range(q.z as int, QUAT_ONE as int, root as int, QUAT_ONE as int);
        vstd::arithmetic::mul::lemma_mul_is_commutative(root as int, QUAT_ONE as int);
        lemma_div_t_bounded(q.w * QUAT_ONE, root as int, QUAT_ONE as int);
        lemma_div_t_bounded(q.x * QUAT_ONE, root as int, QUAT_ONE as int);
        lemma_div_t_bounded(q.y * QUAT_ONE, root as int, QUAT_ONE as int);
        lemma_div_t_bounded(q.z * QUAT_ONE, root as int, QUAT_ONE as int);
    }
    let s = Quat {
        w: div_trunc(q.w * QUAT_ONE, root),
        x: div_trunc(q.x * QUAT_ONE, root),
        y: div_trunc(q.y * QUAT_ONE, root),
        z: div_trunc(q.z * QUAT_ONE, root),
    };
    let m: i64 = norm_sq(&s);
    if NORM_SQ_LO <= m && m <= NORM_SQ_HI {
        Some(s)
    } else {
        None
    }
}

/// The quaternion of a rotation about `axis` (a unit vector held in the
/// vector components of a quaternion with `w == 0`) by `angle` turn units,
/// before renormalization: `(cos(angle / 2), axis * sin(angle / 2))`.
pub open spec fn axis_angle_raw_spec(axis: Quat, angle: int) -> Quat {
    let half = angle / 2;
    Quat {
        w: sine_spec((half + QUARTER_TURN) % (TURN as int)) as i64,
        x: div_t(axis.x * sine_spec(half), QUAT_ONE as int) as i64,
        y: div_t(axis.y * sine_spec(half), QUAT_ONE as int) as i64,
        z: div_t(axis.z * sine_spec(half), QUAT_ONE as int) as i64,
    }
}

/// The renormalized axis-angle rotation, if it passes the norm band check.
pub open spec fn axis_angle_spec(axis: Quat, angle: int) -> Option<Quat> {
    renorm_spec(axis_angle_raw_spec(axis, angle))
}

/// Builds the rotation about `axis` by `angle` turn units and renormalizes
/// it.  `SIN_SCALE` and `QUAT_ONE` coincide, so the wave value is already a
/// quaternion component.
pub fn axis_angle(axis: &Quat, angle: i64) -> (r: Option<Quat>)
    requires
        bounded(*axis, QUAT_ONE as int),
        0 <= angle < TURN,
    ensures
        r == axis_angle_spec(*axis, angle as int),
        r is Some ==> unit_norm(r->0),
{
    let half: i64 = crate::fixed::div_trunc(angle, 2);
    let c: i64 = sine_fixed(crate::fixed::mod_nonneg(half + QUARTER_TURN, TURN));
    let s: i64 = sine_fixed(half);
    proof {
        vstd::arithmetic::div_mod::lemma_mod_division_less_than_divisor(
            half + QUARTER_TURN,
            TURN as int,
        );
        lemma_product_range(axis.x as int, s as int, QUAT_ONE as int, SIN_SCALE as int);
        lemma_product_range(axis.y as int, s as int, QUAT_ONE as int, SIN_SCALE as int);
        lemma_product_range(axis.z as int, s as int, QUAT_ONE as int, SIN_SCALE as int);
        assert((QUAT_ONE as int) * (SIN_SCALE as int) == 0x1_0000_0000) by (nonlinear_arith);
        lemma_div_t_bounded(axis.x * s, QUAT_ONE as int, QUAT_ONE as int);
        lemma_div_t_bounded(axis.y * s, QUAT_ONE as int, QUAT_ONE as int);
        lemma_div_t_bounded(axis.z * s, QUAT_ONE as int, QUAT_ONE as int);
    }
    let raw = Quat {
        w: c,
        x: crate::fixed::div_trunc(axis.x * s, QUAT_ONE),
        y: crate::fixed::div_trunc(axis.y * s, QUAT_ONE),
        z: crate::fixed::div_trunc(axis.z * s, QUAT_ONE),
    };
    renormalized(&raw)
}

/// One orientation step: the spin applied to the orientation, renormalized;
/// if the renormalized product falls outside the accepted band (which a spin
/// and orientation that are both well formed do not produce in practice), the
/// orientation is left unchanged rather than corrupted.
pub open spec fn rotated_spec(spin: Quat, orientation: Quat) -> Quat {
    match renorm_spec(mul_scaled_spec(spin, orientation)) {
        Some(q) => q,
        None => orientation,
    }
}

/// Applies `spin` to `orientation` and renormalizes, preserving unit norm.
pub fn rotate(spin: &Quat, orientation: &Quat) -> (r: Quat)
    requires
        unit_norm(*spin),
        unit_norm(*orientation),
    ensures
        r == rotated_spec(*spin, *orientation),
        unit_norm(r),
{
    let p = mul_scaled(spin, orientation);
    match renormalized(&p) {
        Some(q) => q,
        None => *orientation,
    }
}

} // verus!
