use falling_petals::quat::{
    axis_angle, identity, mul_scaled, norm_sq, renormalized, rotate, Quat, NORM_SQ_HI, NORM_SQ_LO,
    QUAT_ONE,
};
use falling_petals::trig::QUARTER_TURN;

fn assert_in_band(q: &Quat) {
    let n = norm_sq(q);
    assert!(
        NORM_SQ_LO <= n && n <= NORM_SQ_HI,
        "norm_sq {} outside [{}, {}]",
        n,
        NORM_SQ_LO,
        NORM_SQ_HI
    );
}

#[test]
fn identity_is_unit() {
    let q = identity();
    assert_eq!(norm_sq(&q), QUAT_ONE * QUAT_ONE);
}

#[test]
fn identity_is_neutral_for_multiplication() {
    let q = Quat { w: 0, x: 0, y: QUAT_ONE, z: 0 };
    let r = mul_scaled(&identity(), &q);
    assert_eq!(r, q);
    let r2 = mul_scaled(&q, &identity());
    assert_eq!(r2, q);
}

#[test]
fn unit_basis_products_follow_hamilton_rules() {
    let i = Quat { w: 0, x: QUAT_ONE, y: 0, z: 0 };
    let j = Quat { w: 0, x: 0, y: QUAT_ONE, z: 0 };
    let k = Quat { w: 0, x: 0, y: 0, z: QUAT_ONE };
    // i * j == k, j * i == -k, i * i == -1
    assert_eq!(mul_scaled(&i, &j), k);
    assert_eq!(mul_scaled(&j, &i), Quat { w: 0, x: 0, y: 0, z: -QUAT_ONE });
    assert_eq!(mul_scaled(&i, &i), Quat { w: -QUAT_ONE, x: 0, y: 0, z: 0 });
}

#[test]
fn renormalized_rescales_a_doubled_quaternion() {
    let q = Quat { w: 2 * QUAT_ONE, x: 0, y: 0, z: 0 };
    let r = renormalized(&q).expect("doubled identity renormalizes");
    assert_eq!(r.w, QUAT_ONE);
    assert_eq!((r.x, r.y, r.z), (0, 0, 0));
}

#[test]
fn renormalized_rejects_zero() {
    let q = Quat { w: 0, x: 0, y: 0, z: 0 };
    assert!(renormalized(&q).is_none());
}

#[test]
fn renormalized_handles_skew_inputs() {
    let q = Quat { w: 12345, x: -54321, y: 7777, z: 100 };
    let r = renormalized(&q).expect("generic direction renormalizes");
    assert_in_band(&r);
}

#[test]
fn orientation_stays_unit_norm_after_many_ticks() {
    // A fixed spin composed into an orientation ten thousand times stays
    // within the norm tolerance band.
    let axis = renormalized(&Quat { w: 0, x: 3000, y: -40000, z: 12000 }).unwrap();
    let spin = axis_angle(&axis, 300).expect("small rotation builds");
    let mut orientation = renormalized(&Quat { w: 50000, x: 20000, y: -10000, z: 30000 }).unwrap();
    for _ in 0..10000 {
        orientation = rotate(&spin, &orientation);
        assert_in_band(&orientation);
    }
}

#[test]
fn quarter_turn_about_z_maps_between_basis_orientations() {
    let z_axis = Quat { w: 0, x: 0, y: 0, z: QUAT_ONE };
    let spin = axis_angle(&z_axis, QUARTER_TURN).expect("quarter turn builds");
    // cos(eighth turn) == sin(eighth turn), so both components agree.
    assert_eq!(spin.w, spin.z);
    assert_eq!((spin.x, spin.y), (0, 0));
    assert_in_band(&spin);
}
