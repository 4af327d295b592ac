use falling_petals::motion::{generate_motion_field, MotionField};

#[test]
fn generated_field_has_length_exactly_period() {
    let f = generate_motion_field(1800, 4, 160, 40);
    assert_eq!(f.values.len(), 1800);
    assert_eq!(f.period, 1800);
    assert_eq!(f.amplitudes.len(), 4);
    assert_eq!(f.phases.len(), 4);
}

#[test]
fn single_frequency_field_has_length_one_period() {
    let f = generate_motion_field(30, 1, 100, 7);
    assert_eq!(f.values.len(), 30);
    // With a single frequency the cap is the low-frequency cap.
    assert!(f.amplitudes[0] <= 100);
}

#[test]
fn zero_amplitude_caps_give_a_zero_field() {
    let f = generate_motion_field(64, 3, 0, 0);
    assert!(f.values.iter().all(|&v| v == 0));
    assert!(f.amplitudes.iter().all(|&a| a == 0));
}

#[test]
fn samples_stay_within_total_amplitude() {
    let f = generate_motion_field(500, 8, 1000, 10);
    let total: i64 = f.amplitudes.iter().sum();
    assert!(total <= 8 * 1000);
    for &v in f.values.iter() {
        assert!(-total <= v && v <= total);
    }
}

#[test]
fn table_indexed_by_tick_mod_period_is_periodic() {
    // The table holds one period; reading tick t at index t mod period makes
    // the displacement sequence periodic by construction, and the sample
    // formula itself repeats with the same period.
    let f = generate_motion_field(97, 5, 300, 30);
    for tick in 0..300u32 {
        let idx = tick % f.period;
        let wrapped = (tick + f.period) % f.period;
        assert_eq!(f.value(idx), f.value(wrapped));
    }
}

#[test]
fn value_reads_the_table() {
    let f = MotionField {
        period: 4,
        amplitudes: vec![0],
        phases: vec![0],
        values: vec![0, 0, 0, 0],
    };
    assert_eq!(f.value(2), 0);
}

#[test]
fn independent_draws_give_independent_parameters() {
    // Two fields drawn with the same inputs almost surely differ in phase;
    // what must hold of every draw is the parameter ranges.
    let a = generate_motion_field(256, 6, 5000, 100);
    let b = generate_motion_field(256, 6, 5000, 100);
    for f in [&a, &b] {
        for &amp in f.amplitudes.iter() {
            assert!((0..=5000).contains(&amp));
        }
        for &ph in f.phases.iter() {
            assert!((0..65536).contains(&ph));
        }
    }
}
