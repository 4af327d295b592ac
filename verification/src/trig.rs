//! Fixed-point angles and a polynomial sine wave.
//!
//! Angles are integers measured in units of [`TURN`] per full revolution.  The
//! wave value is a fixed-point number scaled by [`SIN_SCALE`]: `sine_fixed`
//! returns values in `[-SIN_SCALE, SIN_SCALE]`, with `sine_fixed(0) == 0` and
//! `sine_fixed(QUARTER_TURN) == SIN_SCALE` exactly.  The wave is a rational
//! approximation of the sine function (one arch of `16 a (h - a) /
//! (5 h^2 - 4 a (h - a))` over each half turn, with the sign flipped on the
//! second half), which is all the motion model needs: a smooth periodic wave
//! with exact integer semantics.

use vstd::prelude::*;

verus! {

use vstd::arithmetic::div_mod::{
    lemma_div_is_ordered,
    lemma_div_multiples_vanish,
    lemma_div_pos_is_pos,
};

/// Number of angle units in a full revolution.
pub const TURN: i64 = 65536;

/// Number of angle units in half a revolution.
pub const HALF_TURN: i64 = 32768;

/// Number of angle units in a quarter revolution.
pub const QUARTER_TURN: i64 = 16384;

/// Fixed-point scale of wave values: `sine_fixed` has amplitude `SIN_SCALE`.
pub const SIN_SCALE: i64 = 65536;

/// Value of the rising arch of the wave at `a` angle units into the arch,
/// for `0 <= a <= HALF_TURN`.
pub open spec fn arch_spec(a: int) -> int {
    (SIN_SCALE * 16 * (a * (HALF_TURN - a))) / (5 * HALF_TURN * HALF_TURN - 4 * (a * (HALF_TURN
        - a)))
}

/// Wave value at angle `a`, for `0 <= a < TURN`: the arch on the first half
/// turn, its mirror image below the axis on the second half turn.
pub open spec fn sine_spec(a: int) -> int
    recommends
        0 <= a < TURN,
{
    if a <= HALF_TURN {
        arch_spec(a)
    } else {
        -arch_spec(a - HALF_TURN)
    }
}

/// The product `a * (HALF_TURN - a)` stays within `[0, HALF_TURN^2 / 4]` on
/// the arch, which bounds both the numerator and the quotient of `arch_spec`.
proof fn lemma_arch_product_bounds(a: int)
    by (nonlinear_arith)
    requires
        0 <= a <= HALF_TURN,
    ensures
        0 <= a * (HALF_TURN - a),
        4 * (a * (HALF_TURN - a)) <= HALF_TURN * HALF_TURN,
{
}

/// The arch stays within `[0, SIN_SCALE]`.
pub proof fn lemma_arch_bounds(a: int)
    requires
        0 <= a <= HALF_TURN,
    ensures
        0 <= arch_spec(a) <= SIN_SCALE,
{
    lemma_arch_product_bounds(a);
    let b = a * (HALF_TURN - a);
    let num = SIN_SCALE * 16 * b;
    let den = 5 * HALF_TURN * HALF_TURN - 4 * b;
    lemma_div_pos_is_pos(num, den);
    // num <= SIN_SCALE * den because 20 * b <= 5 * HALF_TURN^2.
    lemma_div_is_ordered(num, SIN_SCALE * den, den);
    lemma_div_multiples_vanish(SIN_SCALE as int, den);
}

/// The wave stays within `[-SIN_SCALE, SIN_SCALE]` over its whole period.
pub proof fn lemma_sine_bounds(a: int)
    requires
        0 <= a < TURN,
    ensures
        -SIN_SCALE <= sine_spec(a) <= SIN_SCALE,
{
    if a <= HALF_TURN {
        lemma_arch_bounds(a);
    } else {
        lemma_arch_bounds(a - HALF_TURN);
    }
}

/// One arch of the wave, evaluated exactly as `arch_spec`.
fn arch_fixed(a: i64) -> (r: i64)
    requires
        0 <= a <= HALF_TURN,
    ensures
        r == arch_spec(a as int),
        0 <= r <= SIN_SCALE,
{
    proof {
        lemma_arch_product_bounds(a as int);
        lemma_arch_bounds(a as int);
    }
    let b: i64 = a * (HALF_TURN - a);
    let num: i64 = SIN_SCALE * 16 * b;
    let den: i64 = 5 * HALF_TURN * HALF_TURN - 4 * b;
    let q: u64 = (num as u64) / (den as u64);
    q as i64
}

/// Wave value at angle `a`, equal to `sine_spec(a)`.
pub fn sine_fixed(a: i64) -> (r: i64)
    requires
        0 <= a < TURN,
    ensures
        r == sine_spec(a as int),
        -SIN_SCALE <= r <= SIN_SCALE,
{
    if a <= HALF_TURN {
        arch_fixed(a)
    } else {
        -arch_fixed(a - HALF_TURN)
    }
}

/// The wave is zero at the start of each half turn and at its peak exactly
/// `SIN_SCALE` a quarter turn in.
pub proof fn lemma_sine_landmarks()
    ensures
        sine_spec(0) == 0,
        sine_spec(HALF_TURN as int) == 0,
        sine_spec(QUARTER_TURN as int) == SIN_SCALE,
{
    assert(0int * (HALF_TURN - 0int) == 0);
    assert(HALF_TURN * (HALF_TURN - HALF_TURN) == 0);
    assert(SIN_SCALE * 16 * 0int == 0);
    assert(0int / 0x140000000int == 0);
    assert(QUARTER_TURN * (HALF_TURN - QUARTER_TURN) == 0x10000000);
    assert(5 * HALF_TURN * HALF_TURN == 0x140000000);
    assert(SIN_SCALE * 16 * 0x10000000 == 0x1000000000000);
    assert(0x1000000000000int / 0x100000000int == 0x10000int);
    assert(sine_spec(QUARTER_TURN as int) == 0x1000000000000int / 0x100000000int);
}

} // verus!
