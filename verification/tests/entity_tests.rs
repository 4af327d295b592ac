use falling_petals::entity::{
    sort_petals_by_z, step_petals, wrap_coordinate, PetalState, Pose, Vec3,
};
use falling_petals::quat::{identity, Quat, QUAT_ONE};

fn petal_at(x: i64, y: i64, z: i64, id: u32) -> PetalState {
    PetalState {
        pose: Pose {
            position: Vec3 { x, y, z },
            orientation: identity(),
            aspect_ratio: 0x1_0000,
            scale: 0x1_0000,
        },
        variant_index: id,
        rotation: identity(),
    }
}

#[test]
fn wrap_leaves_interior_points_alone() {
    assert_eq!(wrap_coordinate(0, 10), 0);
    assert_eq!(wrap_coordinate(10, 10), 10);
    assert_eq!(wrap_coordinate(-10, 10), -10);
}

#[test]
fn wrap_moves_an_overshoot_to_the_opposite_face() {
    assert_eq!(wrap_coordinate(11, 10), -9);
    assert_eq!(wrap_coordinate(-11, 10), 9);
    assert_eq!(wrap_coordinate(30, 10), 10);
    assert_eq!(wrap_coordinate(-30, 10), -10);
}

#[test]
fn step_applies_fall_and_field_and_wraps() {
    let mut petals = vec![petal_at(0, 10, 0, 0), petal_at(9, -10, 3, 1)];
    // fall 1, field (+2, 0, -1), bounds 10 on every axis
    step_petals(&mut petals, 1, 2, 0, -1, 10, 10, 10);
    assert_eq!(petals[0].pose.position, Vec3 { x: 2, y: 9, z: -1 });
    // x: 9 + 2 = 11 wraps to -9; y: -10 - 1 = -11 wraps to 9; z: 3 - 1 = 2
    assert_eq!(petals[1].pose.position, Vec3 { x: -9, y: 9, z: 2 });
}

#[test]
fn step_preserves_entity_count_and_identity_fields() {
    let mut petals = vec![petal_at(1, 2, 3, 7), petal_at(4, 5, 6, 8)];
    step_petals(&mut petals, 0, 0, 0, 0, 10, 10, 10);
    assert_eq!(petals.len(), 2);
    assert_eq!(petals[0].variant_index, 7);
    assert_eq!(petals[1].variant_index, 8);
}

#[test]
fn identity_spin_keeps_orientation() {
    let q = Quat { w: QUAT_ONE, x: 0, y: 0, z: 0 };
    let mut petals = vec![petal_at(0, 0, 0, 0)];
    step_petals(&mut petals, 0, 0, 0, 0, 10, 10, 10);
    assert_eq!(petals[0].pose.orientation, q);
}

#[test]
fn sort_orders_by_world_z_ascending() {
    let mut petals = vec![
        petal_at(0, 0, 5, 0),
        petal_at(0, 0, -3, 1),
        petal_at(0, 0, 9, 2),
        petal_at(0, 0, 0, 3),
    ];
    sort_petals_by_z(&mut petals);
    let zs: Vec<i64> = petals.iter().map(|p| p.pose.position.z).collect();
    assert_eq!(zs, vec![-3, 0, 5, 9]);
    let ids: Vec<u32> = petals.iter().map(|p| p.variant_index).collect();
    assert_eq!(ids, vec![1, 3, 0, 2]);
}

#[test]
fn sort_keeps_all_entities_when_keys_are_equal() {
    let mut petals = vec![
        petal_at(1, 0, 4, 0),
        petal_at(2, 0, 4, 1),
        petal_at(3, 0, 4, 2),
    ];
    sort_petals_by_z(&mut petals);
    assert_eq!(petals.len(), 3);
    let mut ids: Vec<u32> = petals.iter().map(|p| p.variant_index).collect();
    ids.sort();
    assert_eq!(ids, vec![0, 1, 2]);
}

#[test]
fn sort_handles_empty_and_single() {
    let mut none: Vec<PetalState> = vec![];
    sort_petals_by_z(&mut none);
    assert!(none.is_empty());
    let mut one = vec![petal_at(0, 0, 42, 9)];
    sort_petals_by_z(&mut one);
    assert_eq!(one[0].pose.position.z, 42);
}

#[test]
fn sort_of_reverse_sorted_input() {
    let mut petals: Vec<PetalState> = (0..50).map(|i| petal_at(0, 0, 50 - i, i as u32)).collect();
    sort_petals_by_z(&mut petals);
    for w in petals.windows(2) {
        assert!(w[0].pose.position.z <= w[1].pose.position.z);
    }
    assert_eq!(petals.len(), 50);
}
