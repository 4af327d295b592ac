//! The motion field: a periodic per-axis displacement table shared by every
//! sprite, generated once as a random mixture of sinusoid-like waves.
//!
//! For a period `p` and frequencies `k = 0 .. n-1`, the sample at tick `i` is
//! the sum over `k` of `amplitude_k * sine(k * i * TURN / p + phase_k)`
//! rescaled to spatial units.  Amplitudes are drawn uniformly from
//! `[0, cap_k]`, where `cap_k` interpolates linearly from the low-frequency
//! cap down to the high-frequency cap; phases are drawn uniformly over a full
//! turn.  The sample formula is periodic in `i` with period exactly `p`
//! ([`lemma_mixture_periodic`]), and every sample is bounded by the sum of the
//! amplitudes ([`lemma_mix_sum_bounded`]).

use crate::fixed::{div_t, div_trunc, lemma_div_t_bounded, lemma_product_range, mod_nonneg};
use crate::random::rand_i64_in;
use crate::trig::{lemma_sine_bounds, sine_fixed, sine_spec, SIN_SCALE, TURN};
use vstd::prelude::*;

verus! {

use vstd::arithmetic::div_mod::{
    lemma_div_by_multiple,
    lemma_div_is_ordered,
    lemma_div_pos_is_pos,
    lemma_hoist_over_denominator,
    lemma_mod_division_less_than_divisor,
    lemma_mod_multiples_vanish,
};

/// Largest supported period of the motion field, in ticks.
pub const MAX_PERIOD: u32 = 0x10_0000;

/// Largest supported number of mixed frequencies.
pub const MAX_FREQUENCIES: u32 = 256;

/// Largest supported amplitude cap, in spatial units.
pub const MAX_AMPLITUDE: i64 = 0x10_0000;

/// The larger of the two amplitude caps.
pub open spec fn cap_max(low: int, high: int) -> int {
    if low >= high {
        low
    } else {
        high
    }
}

/// Amplitude cap for frequency index `k` of `n`: interpolates linearly from
/// `low` at `k == 0` down (or up) to `high` at `k == n - 1`.  A single
/// frequency keeps the low-frequency cap.
pub open spec fn amplitude_cap(low: int, high: int, k: int, n: int) -> int
    recommends
        1 <= n,
        0 <= k < n,
{
    if n == 1 {
        low
    } else {
        low - div_t((low - high) * k, n - 1)
    }
}

/// The interpolated cap stays between the two configured caps.
pub proof fn lemma_amplitude_cap_range(low: int, high: int, k: int, n: int)
    requires
        0 <= low,
        0 <= high,
        1 <= n,
        0 <= k < n,
    ensures
        0 <= amplitude_cap(low, high, k, n) <= cap_max(low, high),
{
    if n > 1 {
        let m = n - 1;
        let d = low - high;
        if d >= 0 {
            assert(0 <= d * k <= d * m) by (nonlinear_arith)
                requires
                    0 <= d,
                    0 <= k <= m,
            ;
            lemma_div_pos_is_pos(d * k, m);
            lemma_div_is_ordered(d * k, d * m, m);
            lemma_div_by_multiple(d, m);
        } else {
            let e = -d;
            assert(0 <= e * k <= e * m) by (nonlinear_arith)
                requires
                    0 < e,
                    0 <= k <= m,
            ;
            assert(-(d * k) == e * k) by (nonlinear_arith)
                requires
                    e == -d,
            ;
            lemma_div_pos_is_pos(e * k, m);
            lemma_div_is_ordered(e * k, e * m, m);
            lemma_div_by_multiple(e, m);
        }
    }
}

/// Angle, in turn units, of frequency `k` at tick `i` of a period-`p` field.
pub open spec fn angle_at(k: int, phase: int, period: int, i: int) -> int
    recommends
        1 <= period,
        0 <= k,
        0 <= phase,
        0 <= i,
{
    ((k * i * TURN) / period + phase) % (TURN as int)
}

/// Contribution of one frequency to the sample at tick `i`, in spatial units.
pub open spec fn wave_term(amp: int, phase: int, k: int, period: int, i: int) -> int {
    div_t(amp * sine_spec(angle_at(k, phase, period, i)), SIN_SCALE as int)
}

/// Sum of the first `m` frequencies' contributions at tick `i`.
pub open spec fn mix_sum(amps: Seq<i64>, phases: Seq<i64>, period: int, i: int, m: nat) -> int
    recommends
        m <= amps.len(),
        m <= phases.len(),
    decreases m,
{
    if m == 0 {
        0
    } else {
        mix_sum(amps, phases, period, i, (m - 1) as nat) + wave_term(
            amps[m - 1] as int,
            phases[m - 1] as int,
            m - 1,
            period,
            i,
        )
    }
}

/// The full sample of the motion field at tick `i`.
pub open spec fn mix_sample(amps: Seq<i64>, phases: Seq<i64>, period: int, i: int) -> int {
    mix_sum(amps, phases, period, i, amps.len())
}

/// Sum of the first `m` amplitudes.
pub open spec fn amp_sum(amps: Seq<i64>, m: nat) -> int
    recommends
        m <= amps.len(),
    decreases m,
{
    if m == 0 {
        0
    } else {
        amp_sum(amps, (m - 1) as nat) + amps[m - 1]
    }
}

/// Total amplitude of the field: an upper bound on every sample's magnitude.
pub open spec fn total_amplitude(amps: Seq<i64>) -> int {
    amp_sum(amps, amps.len())
}

/// The sum of `m` amplitudes each at most `b` is at most `m * b`.
pub proof fn lemma_amp_sum_bound(amps: Seq<i64>, m: nat, b: int)
    requires
        m <= amps.len(),
        0 <= b,
        forall|j: int| 0 <= j < amps.len() ==> 0 <= #[trigger] amps[j] <= b,
    ensures
        0 <= amp_sum(amps, m) <= m * b,
    decreases m,
{
    if m > 0 {
        lemma_amp_sum_bound(amps, (m - 1) as nat, b);
        assert((m as int) * b == (m - 1) as int * b + b) by (nonlinear_arith);
    }
}

/// Every partial sample is bounded by the matching partial amplitude sum.
pub proof fn lemma_mix_sum_bounded(amps: Seq<i64>, phases: Seq<i64>, period: int, i: int, m: nat)
    requires
        m <= amps.len(),
        m <= phases.len(),
        1 <= period,
        0 <= i,
        forall|j: int| 0 <= j < amps.len() ==> 0 <= #[trigger] amps[j],
        forall|j: int| 0 <= j < phases.len() ==> 0 <= #[trigger] phases[j],
    ensures
        -amp_sum(amps, m) <= mix_sum(amps, phases, period, i, m) <= amp_sum(amps, m),
    decreases m,
{
    if m > 0 {
        lemma_mix_sum_bounded(amps, phases, period, i, (m - 1) as nat);
        let k = m - 1;
        let amp = amps[k] as int;
        let ang = angle_at(k, phases[k] as int, period, i);
        lemma_mod_division_less_than_divisor((k * i * TURN) / period + phases[k], TURN as int);
        lemma_sine_bounds(ang);
        lemma_product_range(amp, sine_spec(ang), amp, SIN_SCALE as int);
        lemma_div_t_bounded(amp * sine_spec(ang), SIN_SCALE as int, amp);
    }
}

/// The angle of every frequency repeats after one period.
pub proof fn lemma_angle_periodic(k: int, phase: int, period: int, i: int)
    requires
        1 <= period,
        0 <= k,
        0 <= phase,
        0 <= i,
    ensures
        angle_at(k, phase, period, i + period) == angle_at(k, phase, period, i),
{
    let a = k * i * TURN;
    let j = k * TURN;
    assert(k * (i + period) * TURN == a + j * period) by (nonlinear_arith)
        requires
            a == k * i * TURN,
            j == k * TURN,
    ;
    lemma_hoist_over_denominator(a, j, period as nat);
    assert((a + j * period) / period == a / period + j);
    let q = a / period;
    assert((q + j) + phase == (TURN as int) * k + (q + phase)) by (nonlinear_arith)
        requires
            j == k * TURN,
    ;
    lemma_mod_multiples_vanish(k, q + phase, TURN as int);
}

/// Every partial sample repeats after one period.
proof fn lemma_mix_sum_periodic(amps: Seq<i64>, phases: Seq<i64>, period: int, i: int, m: nat)
    requires
        m <= amps.len(),
        m <= phases.len(),
        1 <= period,
        0 <= i,
        forall|j: int| 0 <= j < phases.len() ==> 0 <= #[trigger] phases[j],
    ensures
        mix_sum(amps, phases, period, i + period, m) == mix_sum(amps, phases, period, i, m),
    decreases m,
{
    if m > 0 {
        lemma_mix_sum_periodic(amps, phases, period, i, (m - 1) as nat);
        lemma_angle_periodic(m - 1, phases[m - 1] as int, period, i);
    }
}

/// Periodicity law of the motion field: the sample formula evaluated at tick
/// `i + period` equals the sample at tick `i`, for every tick `i` (the table
/// itself has length `period`, and indexing it by `tick mod period` therefore
/// agrees with the formula at every tick).
pub proof fn lemma_mixture_periodic(amps: Seq<i64>, phases: Seq<i64>, period: int, i: int)
    requires
        amps.len() == phases.len(),
        1 <= period,
        0 <= i,
        forall|j: int| 0 <= j < phases.len() ==> 0 <= #[trigger] phases[j],
    ensures
        mix_sample(amps, phases, period, i + period) == mix_sample(amps, phases, period, i),
{
    lemma_mix_sum_periodic(amps, phases, period, i, amps.len());
}

/// One axis of the motion field: the drawn wave parameters and the sample
/// table for one period.
pub struct MotionField {
    /// Length of one period, in ticks.
    pub period: u32,
    /// One amplitude per frequency, in spatial units.
    pub amplitudes: Vec<i64>,
    /// One phase per frequency, in turn units.
    pub phases: Vec<i64>,
    /// The samples for ticks `0 .. period`.
    pub values: Vec<i64>,
}

impl MotionField {
    /// Well-formedness: parameter ranges, and the table holding exactly the
    /// sample formula for one full period.
    pub open spec fn wf(self) -> bool {
        &&& 1 <= self.period <= MAX_PERIOD
        &&& self.amplitudes.len() == self.phases.len()
        &&& 1 <= self.amplitudes.len() <= MAX_FREQUENCIES
        &&& forall|j: int|
            0 <= j < self.amplitudes.len() ==> 0 <= #[trigger] self.amplitudes[j] <= MAX_AMPLITUDE
        &&& forall|j: int| 0 <= j < self.phases.len() ==> 0 <= #[trigger] self.phases[j] < TURN
        &&& self.values.len() == self.period
        &&& forall|i: int|
            0 <= i < self.period ==> #[trigger] self.values[i] == mix_sample(
                self.amplitudes@,
                self.phases@,
                self.period as int,
                i,
            )
    }

    /// The sample for tick index `idx` within the period, bounded by the
    /// total amplitude of the field.
    pub fn value(&self, idx: u32) -> (v: i64)
        requires
            self.wf(),
            idx < self.period,
        ensures
            v == mix_sample(self.amplitudes@, self.phases@, self.period as int, idx as int),
            -total_amplitude(self.amplitudes@) <= v <= total_amplitude(self.amplitudes@),
    {
        proof {
            lemma_mix_sum_bounded(
                self.amplitudes@,
                self.phases@,
                self.period as int,
                idx as int,
                self.amplitudes@.len(),
            );
        }
        self.values[idx as usize]
    }
}

/// Draws the wave parameters for one axis: an amplitude within the
/// interpolated cap and a phase within one turn, per frequency.
fn draw_parameters(n_frequencies: u32, low_freq_max: i64, high_freq_max: i64) -> (r: (
    Vec<i64>,
    Vec<i64>,
))
    requires
        1 <= n_frequencies <= MAX_FREQUENCIES,
        0 <= low_freq_max <= MAX_AMPLITUDE,
        0 <= high_freq_max <= MAX_AMPLITUDE,
    ensures
        r.0.len() == n_frequencies,
        r.1.len() == n_frequencies,
        forall|j: int|
            0 <= j < n_frequencies ==> 0 <= #[trigger] r.0[j] <= amplitude_cap(
                low_freq_max as int,
                high_freq_max as int,
                j,
                n_frequencies as int,
            ),
        forall|j: int|
            0 <= j < n_frequencies ==> 0 <= #[trigger] r.0[j] <= cap_max(
                low_freq_max as int,
                high_freq_max as int,
            ),
        forall|j: int| 0 <= j < n_frequencies ==> 0 <= #[trigger] r.1[j] < TURN,
{
    let ghost low = low_freq_max as int;
    let ghost high = high_freq_max as int;
    let ghost n = n_frequencies as int;
    let mut amplitudes: Vec<i64> = Vec::new();
    let mut phases: Vec<i64> = Vec::new();
    let mut k: u32 = 0;
    while k < n_frequencies
        invariant
            k <= n_frequencies,
            1 <= n_frequencies <= MAX_FREQUENCIES,
            0 <= low_freq_max <= MAX_AMPLITUDE,
            0 <= high_freq_max <= MAX_AMPLITUDE,
            low == low_freq_max as int,
            high == high_freq_max as int,
            n == n_frequencies as int,
            amplitudes.len() == k,
            phases.len() == k,
            forall|j: int|
                0 <= j < k ==> 0 <= #[trigger] amplitudes[j] <= amplitude_cap(low, high, j, n),
            forall|j: int| 0 <= j < k ==> 0 <= #[trigger] amplitudes[j] <= cap_max(low, high),
            forall|j: int| 0 <= j < k ==> 0 <= #[trigger] phases[j] < TURN,
        decreases n_frequencies - k,
    {
        let cap: i64 = if n_frequencies == 1 {
            low_freq_max
        } else {
            proof {
                lemma_product_range(
                    low - high,
                    k as int,
                    MAX_AMPLITUDE as int,
                    MAX_FREQUENCIES as int,
                );
            }
            low_freq_max - div_trunc((low_freq_max - high_freq_max) * (k as i64), (n_frequencies
                - 1) as i64)
        };
        proof {
            lemma_amplitude_cap_range(low, high, k as int, n);
        }
        let amp = rand_i64_in(0, cap);
        let phase = rand_i64_in(0, TURN - 1);
        amplitudes.push(amp);
        phases.push(phase);
        k = k + 1;
    }
    (amplitudes, phases)
}

/// Computes the sample table for one period from the drawn parameters.
fn sample_table(period: u32, amplitudes: &Vec<i64>, phases: &Vec<i64>) -> (values: Vec<i64>)
    requires
        1 <= period <= MAX_PERIOD,
        amplitudes.len() == phases.len(),
        1 <= amplitudes.len() <= MAX_FREQUENCIES,
        forall|j: int| 0 <= j < amplitudes.len() ==> 0 <= #[trigger] amplitudes[j] <= MAX_AMPLITUDE,
        forall|j: int| 0 <= j < phases.len() ==> 0 <= #[trigger] phases[j] < TURN,
    ensures
        values.len() == period,
        forall|i: int|
            0 <= i < period ==> #[trigger] values[i] == mix_sample(
                amplitudes@,
                phases@,
                period as int,
                i,
            ),
{
    let n: usize = amplitudes.len();
    let mut values: Vec<i64> = Vec::new();
    let mut i: u32 = 0;
    while i < period
        invariant
            i <= period,
            1 <= period <= MAX_PERIOD,
            amplitudes.len() == phases.len(),
            n == amplitudes.len(),
            1 <= n <= MAX_FREQUENCIES,
            forall|j: int|
                0 <= j < amplitudes.len() ==> 0 <= #[trigger] amplitudes[j] <= MAX_AMPLITUDE,
            forall|j: int| 0 <= j < phases.len() ==> 0 <= #[trigger] phases[j] < TURN,
            values.len() == i,
            forall|t: int|
                0 <= t < i ==> #[trigger] values[t] == mix_sample(
                    amplitudes@,
                    phases@,
                    period as int,
                    t,
                ),
        decreases period - i,
    {
        let mut acc: i64 = 0;
        let mut k: usize = 0;
        while k < n
            invariant
                k <= n,
                i < period <= MAX_PERIOD,
                amplitudes.len() == phases.len(),
                n == amplitudes.len(),
                1 <= n <= MAX_FREQUENCIES,
                forall|j: int|
                    0 <= j < amplitudes.len() ==> 0 <= #[trigger] amplitudes[j] <= MAX_AMPLITUDE,
                forall|j: int| 0 <= j < phases.len() ==> 0 <= #[trigger] phases[j] < TURN,
                acc == mix_sum(amplitudes@, phases@, period as int, i as int, k as nat),
                -((k as int) * MAX_AMPLITUDE) <= acc <= (k as int) * MAX_AMPLITUDE,
            decreases n - k,
        {
            let amp: i64 = amplitudes[k];
            let phase: i64 = phases[k];
            assert(0 <= (k as i64) * (i as i64) <= 0xff0_0000) by (nonlinear_arith)
                requires
                    0 <= k < 256,
                    0 <= i < 0x10_0000,
            ;
            let ki: i64 = (k as i64) * (i as i64);
            let raw: i64 = ki * TURN;
            let quot: i64 = div_trunc(raw, period as i64);
            proof {
                lemma_div_pos_is_pos(raw as int, period as int);
                lemma_div_is_ordered(raw as int, raw as int, period as int);
            }
            let ang: i64 = mod_nonneg(quot + phase, TURN);
            let s: i64 = sine_fixed(ang);
            proof {
                lemma_product_range(amp as int, s as int, MAX_AMPLITUDE as int, SIN_SCALE as int);
                lemma_product_range(amp as int, s as int, amp as int, SIN_SCALE as int);
                lemma_div_t_bounded(amp * s, SIN_SCALE as int, amp as int);
            }
            let term: i64 = div_trunc(amp * s, SIN_SCALE);
            acc = acc + term;
            k = k + 1;
        }
        values.push(acc);
        i = i + 1;
    }
    values
}

/// Builds one axis of the motion field: draws random wave parameters and
/// fills the sample table for one full period.  Whatever the draws, the
/// table has length exactly `period`, every amplitude respects its
/// interpolated cap, and the total amplitude (which bounds every sample) is
/// at most `n_frequencies * cap_max(low_freq_max, high_freq_max)`.
pub fn generate_motion_field(
    period: u32,
    n_frequencies: u32,
    low_freq_max: i64,
    high_freq_max: i64,
) -> (f: MotionField)
    requires
        1 <= period <= MAX_PERIOD,
        1 <= n_frequencies <= MAX_FREQUENCIES,
        0 <= low_freq_max <= MAX_AMPLITUDE,
        0 <= high_freq_max <= MAX_AMPLITUDE,
    ensures
        f.wf(),
        f.period == period,
        f.amplitudes.len() == n_frequencies,
        forall|j: int|
            0 <= j < n_frequencies ==> 0 <= #[trigger] f.amplitudes[j] <= amplitude_cap(
                low_freq_max as int,
                high_freq_max as int,
                j,
                n_frequencies as int,
            ),
        total_amplitude(f.amplitudes@) <= (n_frequencies as int) * cap_max(
            low_freq_max as int,
            high_freq_max as int,
        ),
{
    let (amplitudes, phases) = draw_parameters(n_frequencies, low_freq_max, high_freq_max);
    proof {
        lemma_amp_sum_bound(
            amplitudes@,
            amplitudes@.len(),
            cap_max(low_freq_max as int, high_freq_max as int),
        );
    }
    let values = sample_table(period, &amplitudes, &phases);
    MotionField { period, amplitudes, phases, values }
}

} // verus!
