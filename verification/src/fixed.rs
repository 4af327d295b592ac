//! Small integer helpers shared by the fixed-point arithmetic in this crate:
//! division that truncates toward zero (the rounding the simulation uses when
//! rescaling fixed-point products), remainder of a non-negative value, and a
//! floor square root.

use vstd::prelude::*;

verus! {

use vstd::arithmetic::div_mod::lemma_div_is_ordered;
use vstd::arithmetic::mul::lemma_mul_inequality;

/// Quotient of `n` by `d`, rounded toward zero (as Rust's `/` rounds).
pub open spec fn div_t(n: int, d: int) -> int
    recommends
        1 <= d,
{
    if n >= 0 {
        n / d
    } else {
        -((-n) / d)
    }
}

/// Divides `n` by `d`, rounding toward zero.
pub fn div_trunc(n: i64, d: i64) -> (r: i64)
    requires
        1 <= d,
        -0x7fff_ffff_ffff_ffff <= n,
    ensures
        r == div_t(n as int, d as int),
{
    if n >= 0 {
        ((n as u64) / (d as u64)) as i64
    } else {
        let m: i64 = -n;
        let q: u64 = (m as u64) / (d as u64);
        -(q as i64)
    }
}

/// Magnitude of the truncating quotient never exceeds the magnitude of a
/// bound on the dividend: if `|n| <= b * d` then `|div_t(n, d)| <= b`.
pub proof fn lemma_div_t_bounded(n: int, d: int, b: int)
    requires
        1 <= d,
        0 <= b,
        -(b * d) <= n <= b * d,
    ensures
        -b <= div_t(n, d) <= b,
{
    if n >= 0 {
        lemma_div_is_ordered(n, b * d, d);
        assert((b * d) / d == b) by {
            vstd::arithmetic::div_mod::lemma_div_multiples_vanish(b, d);
        }
        vstd::arithmetic::div_mod::lemma_div_pos_is_pos(n, d);
    } else {
        lemma_div_is_ordered(-n, b * d, d);
        assert((b * d) / d == b) by {
            vstd::arithmetic::div_mod::lemma_div_multiples_vanish(b, d);
        }
        vstd::arithmetic::div_mod::lemma_div_pos_is_pos(-n, d);
    }
}

/// Clamp of `v` into `[lo, hi]`.
pub open spec fn clamp_spec(v: int, lo: int, hi: int) -> int {
    if v < lo {
        lo
    } else if v > hi {
        hi
    } else {
        v
    }
}

/// Remainder of `n` by `d` with the sign of `n` (as Rust's `%` behaves).
pub open spec fn rem_t(n: int, d: int) -> int
    recommends
        1 <= d,
{
    if n >= 0 {
        n % d
    } else {
        -((-n) % d)
    }
}

/// Remainder of `n` by `d`, keeping the sign of `n`.
pub fn rem_trunc(n: i64, d: i64) -> (r: i64)
    requires
        1 <= d,
        -0x7fff_ffff_ffff_ffff <= n,
    ensures
        r == rem_t(n as int, d as int),
        -d < r < d,
{
    if n >= 0 {
        ((n as u64) % (d as u64)) as i64
    } else {
        let m: i64 = -n;
        -(((m as u64) % (d as u64)) as i64)
    }
}

/// Remainder of a non-negative value by a positive divisor.
pub fn mod_nonneg(n: i64, d: i64) -> (r: i64)
    requires
        0 <= n,
        1 <= d,
    ensures
        r == (n as int) % (d as int),
        0 <= r < d,
{
    ((n as u64) % (d as u64)) as i64
}

/// The floor of the square root of `n`: the unique `r >= 0` with
/// `r^2 <= n < (r + 1)^2`.
pub open spec fn sqrt_floor(n: int) -> int
    recommends
        0 <= n,
{
    choose|r: int| 0 <= r && #[trigger] (r * r) <= n && n < (r + 1) * (r + 1)
}

/// Any `r` with `r^2 <= n < (r + 1)^2` is `sqrt_floor(n)`.
pub proof fn lemma_sqrt_floor_unique(n: int, r: int)
    requires
        0 <= r,
        r * r <= n,
        n < (r + 1) * (r + 1),
    ensures
        r == sqrt_floor(n),
{
    assert(exists|x: int| 0 <= x && #[trigger] (x * x) <= n && n < (x + 1) * (x + 1)) by {
        assert(0 <= r && r * r <= n && n < (r + 1) * (r + 1));
    }
    let r0 = sqrt_floor(n);
    assert(0 <= r0 && r0 * r0 <= n && n < (r0 + 1) * (r0 + 1));
    assert(r == r0) by (nonlinear_arith)
        requires
            0 <= r,
            r * r <= n,
            n < (r + 1) * (r + 1),
            0 <= r0,
            r0 * r0 <= n,
            n < (r0 + 1) * (r0 + 1),
    ;
}

/// Floor square root by bisection.
pub fn isqrt(n: i64) -> (r: i64)
    requires
        0 <= n < 0x10_0000_0000_0000,
    ensures
        0 <= r,
        r * r <= n,
        n < (r + 1) * (r + 1),
        r == sqrt_floor(n as int),
{
    let m: u64 = n as u64;
    let mut lo: u64 = 0;
    let mut hi: u64 = 0x400_0000;
    proof {
        assert(0x400_0000int * 0x400_0000int == 0x10_0000_0000_0000int);
    }
    while lo + 1 < hi
        invariant
            0 <= lo < hi <= 0x400_0000,
            m == n,
            lo * lo <= m,
            m < hi * hi,
        decreases hi - lo,
    {
        let mid: u64 = lo + (hi - lo) / 2;
        assert(lo < mid < hi);
        assert(mid * mid <= 0x10_0000_0000_0000) by (nonlinear_arith)
            requires
                0 < mid <= 0x400_0000,
        ;
        if mid * mid <= m {
            lo = mid;
        } else {
            hi = mid;
        }
    }
    proof {
        lemma_sqrt_floor_unique(n as int, lo as int);
    }
    lo as i64
}

/// `|u| <= a` and `|v| <= b` imply `|u * v| <= a * b`.
pub proof fn lemma_product_range(u: int, v: int, a: int, b: int)
    by (nonlinear_arith)
    requires
        -a <= u <= a,
        -b <= v <= b,
    ensures
        -(a * b) <= u * v <= a * b,
{
}

/// If `0 <= a <= b` then `a^2 <= b^2`: squaring is monotone on the
/// non-negative integers.
pub proof fn lemma_square_monotone(a: int, b: int)
    requires
        0 <= a <= b,
    ensures
        a * a <= b * b,
{
    lemma_mul_inequality(a, b, a);
    lemma_mul_inequality(a, b, b);
    vstd::arithmetic::mul::lemma_mul_is_commutative(a, b);
}

} // verus!
