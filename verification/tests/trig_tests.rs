use falling_petals::trig::{sine_fixed, HALF_TURN, QUARTER_TURN, SIN_SCALE, TURN};

#[test]
fn sine_is_zero_at_start_of_each_half_turn() {
    assert_eq!(sine_fixed(0), 0);
    assert_eq!(sine_fixed(HALF_TURN), 0);
}

#[test]
fn sine_peaks_at_quarter_turns() {
    assert_eq!(sine_fixed(QUARTER_TURN), SIN_SCALE);
    assert_eq!(sine_fixed(HALF_TURN + QUARTER_TURN), -SIN_SCALE);
}

#[test]
fn sine_stays_within_scale_over_a_full_turn() {
    let mut a: i64 = 0;
    while a < TURN {
        let s = sine_fixed(a);
        assert!(-SIN_SCALE <= s && s <= SIN_SCALE);
        a += 37;
    }
}

#[test]
fn sine_second_half_mirrors_first_half() {
    for a in [1, 100, 5000, QUARTER_TURN, 20000, HALF_TURN - 1] {
        assert_eq!(sine_fixed(a + HALF_TURN), -sine_fixed(a));
    }
}

#[test]
fn sine_rises_through_first_quarter() {
    let mut prev = sine_fixed(0);
    let mut a: i64 = 256;
    while a <= QUARTER_TURN {
        let s = sine_fixed(a);
        assert!(s >= prev);
        prev = s;
        a += 256;
    }
}
