//! The sprite entities and their per-tick motion step.
//!
//! Each tick, every entity composes its fixed per-tick spin into its
//! orientation, falls by a constant speed, is displaced by the shared motion
//! field, and is wrapped toroidally back into the simulation volume; the
//! whole collection is then re-sorted by world-space Z ascending, which is
//! the back-to-front order the renderer needs for premultiplied-alpha
//! blending.  Sorting uses world Z rather than camera-relative Z — a
//! documented limitation: a camera relocated to the far side of the volume
//! sees blending artifacts, which is accepted because the camera is expected
//! to stay on one side.

use crate::quat::{rotated_spec, rotate, unit_norm, Quat};
use vstd::prelude::*;

verus! {

use vstd::seq_lib::{to_multiset_contains, to_multiset_insert, to_multiset_remove};

/// Largest supported half-extent of the simulation volume on any axis.
pub const MAX_COORD: i64 = 0x100_0000_0000;

/// A position or displacement in spatial units.
#[derive(Clone, Copy, Debug, PartialEq, Eq, Structural)]
pub struct Vec3 {
    pub x: i64,
    pub y: i64,
    pub z: i64,
}

/// Pose of one sprite: position, orientation, and the shape of its quad.
#[derive(Clone, Copy, Debug, PartialEq, Eq, Structural)]
pub struct Pose {
    /// World-space position of the sprite's centre.
    pub position: Vec3,
    /// Orientation, always kept unit-norm within tolerance.
    pub orientation: Quat,
    /// Width over height of the sprite's source region, in fixed-point
    /// spatial units.
    pub aspect_ratio: i64,
    /// Overall scale of the sprite, in fixed-point spatial units.
    pub scale: i64,
}

/// One animated sprite: its pose, which texture-region variant it shows, and
/// the constant spin composed into its orientation every tick.
#[derive(Clone, Copy, Debug, PartialEq, Eq, Structural)]
pub struct PetalState {
    pub pose: Pose,
    pub variant_index: u32,
    pub rotation: Quat,
}

/// Toroidal wrap of one coordinate: a value that left the volume on one face
/// re-enters on the opposite face.  Handles a single overshoot of up to
/// `2 * m`, which the step preconditions guarantee.
pub open spec fn wrap_spec(x: int, m: int) -> int {
    if x < -m {
        x + 2 * m
    } else if x > m {
        x - 2 * m
    } else {
        x
    }
}

/// Wraps `x` into `[-m, m]`.
pub fn wrap_coordinate(x: i64, m: i64) -> (r: i64)
    requires
        1 <= m <= MAX_COORD,
        -3 * m <= x <= 3 * m,
    ensures
        r == wrap_spec(x as int, m as int),
        -m <= r <= m,
{
    if x < -m {
        x + 2 * m
    } else if x > m {
        x - 2 * m
    } else {
        x
    }
}

/// The position lies inside the volume with half-extents `bx`, `by`, `bz`.
pub open spec fn in_bounds(p: Vec3, bx: int, by: int, bz: int) -> bool {
    &&& -bx <= p.x <= bx
    &&& -by <= p.y <= by
    &&& -bz <= p.z <= bz
}

/// Both quaternions of the entity are well formed.
pub open spec fn petal_wf(p: PetalState) -> bool {
    unit_norm(p.pose.orientation) && unit_norm(p.rotation)
}

/// One tick applied to a pose: spin composed into the orientation, constant
/// fall subtracted from the vertical coordinate, the motion-field
/// displacement added, and each coordinate wrapped back into the volume.
pub open spec fn stepped_pose(
    pose: Pose,
    spin: Quat,
    fall: int,
    dx: int,
    dy: int,
    dz: int,
    bx: int,
    by: int,
    bz: int,
) -> Pose {
    Pose {
        position: Vec3 {
            x: wrap_spec(pose.position.x + dx, bx) as i64,
            y: wrap_spec(pose.position.y - fall + dy, by) as i64,
            z: wrap_spec(pose.position.z + dz, bz) as i64,
        },
        orientation: rotated_spec(spin, pose.orientation),
        aspect_ratio: pose.aspect_ratio,
        scale: pose.scale,
    }
}

/// One tick applied to a whole entity: the pose steps, everything else is
/// constant for the entity's lifetime.
pub open spec fn stepped_petal(
    p: PetalState,
    fall: int,
    dx: int,
    dy: int,
    dz: int,
    bx: int,
    by: int,
    bz: int,
) -> PetalState {
    PetalState {
        pose: stepped_pose(p.pose, p.rotation, fall, dx, dy, dz, bx, by, bz),
        variant_index: p.variant_index,
        rotation: p.rotation,
    }
}

/// Advances every entity by one tick, in place.  Afterwards every position
/// coordinate lies within its axis bound and every orientation is still
/// unit-norm.
pub fn step_petals(
    petals: &mut Vec<PetalState>,
    fall_speed: i64,
    dx: i64,
    dy: i64,
    dz: i64,
    bx: i64,
    by: i64,
    bz: i64,
)
    requires
        1 <= bx <= MAX_COORD,
        1 <= by <= MAX_COORD,
        1 <= bz <= MAX_COORD,
        0 <= fall_speed <= 2 * by,
        -2 * bx <= dx <= 2 * bx,
        -2 * by <= dy <= 2 * by,
        -2 * by <= dy - fall_speed <= 2 * by,
        -2 * bz <= dz <= 2 * bz,
        forall|i: int|
            0 <= i < old(petals).len() ==> petal_wf(#[trigger] old(petals)[i]) && in_bounds(
                old(petals)[i].pose.position,
                bx as int,
                by as int,
                bz as int,
            ),
    ensures
        final(petals).len() == old(petals).len(),
        forall|i: int|
            0 <= i < old(petals).len() ==> #[trigger] final(petals)[i] == stepped_petal(
                old(petals)[i],
                fall_speed as int,
                dx as int,
                dy as int,
                dz as int,
                bx as int,
                by as int,
                bz as int,
            ),
        forall|i: int|
            0 <= i < final(petals).len() ==> petal_wf(#[trigger] final(petals)[i]) && in_bounds(
                final(petals)[i].pose.position,
                bx as int,
                by as int,
                bz as int,
            ),
{
    let n: usize = petals.len();
    let mut i: usize = 0;
    while i < n
        invariant
            i <= n,
            n == petals.len() == old(petals).len(),
            1 <= bx <= MAX_COORD,
            1 <= by <= MAX_COORD,
            1 <= bz <= MAX_COORD,
            0 <= fall_speed <= 2 * by,
            -2 * bx <= dx <= 2 * bx,
            -2 * by <= dy <= 2 * by,
            -2 * by <= dy - fall_speed <= 2 * by,
            -2 * bz <= dz <= 2 * bz,
            forall|j: int|
                i <= j < n ==> #[trigger] petals[j] == old(petals)[j],
            forall|j: int|
                0 <= j < n ==> petal_wf(#[trigger] old(petals)[j]) && in_bounds(
                    old(petals)[j].pose.position,
                    bx as int,
                    by as int,
                    bz as int,
                ),
            forall|j: int|
                0 <= j < i ==> #[trigger] petals[j] == stepped_petal(
                    old(petals)[j],
                    fall_speed as int,
                    dx as int,
                    dy as int,
                    dz as int,
                    bx as int,
                    by as int,
                    bz as int,
                ),
            forall|j: int|
                0 <= j < i ==> petal_wf(#[trigger] petals[j]) && in_bounds(
                    petals[j].pose.position,
                    bx as int,
                    by as int,
                    bz as int,
                ),
        decreases n - i,
    {
        let p: PetalState = petals[i];
        let orientation = rotate(&p.rotation, &p.pose.orientation);
        let px = wrap_coordinate(p.pose.position.x + dx, bx);
        let py = wrap_coordinate(p.pose.position.y + (dy - fall_speed), by);
        let pz = wrap_coordinate(p.pose.position.z + dz, bz);
        let stepped = PetalState {
            pose: Pose {
                position: Vec3 { x: px, y: py, z: pz },
                orientation,
                aspect_ratio: p.pose.aspect_ratio,
                scale: p.pose.scale,
            },
            variant_index: p.variant_index,
            rotation: p.rotation,
        };
        petals[i] = stepped;
        i = i + 1;
    }
}

/// A permutation of entities that are all well formed and in bounds is
/// itself all well formed and in bounds.
pub proof fn lemma_permutation_keeps_petal_props(
    s1: Seq<PetalState>,
    s2: Seq<PetalState>,
    bx: int,
    by: int,
    bz: int,
)
    requires
        s1.to_multiset() == s2.to_multiset(),
        forall|i: int|
            0 <= i < s1.len() ==> petal_wf(#[trigger] s1[i]) && in_bounds(
                s1[i].pose.position,
                bx,
                by,
                bz,
            ),
    ensures
        forall|i: int|
            0 <= i < s2.len() ==> petal_wf(#[trigger] s2[i]) && in_bounds(
                s2[i].pose.position,
                bx,
                by,
                bz,
            ),
{
    assert forall|i: int|
        0 <= i < s2.len() implies petal_wf(#[trigger] s2[i]) && in_bounds(
        s2[i].pose.position,
        bx,
        by,
        bz,
    ) by {
        let p = s2[i];
        to_multiset_contains(s2, p);
        assert(s2.contains(p));
        to_multiset_contains(s1, p);
        assert(s1.contains(p));
        let j = choose|j: int| 0 <= j < s1.len() && s1[j] == p;
        assert(petal_wf(s1[j]));
    }
}

/// The sequence is sorted non-decreasing by world-space Z.
pub open spec fn sorted_by_z(s: Seq<PetalState>) -> bool {
    forall|a: int, b: int|
        0 <= a < b < s.len() ==> (#[trigger] s[a]).pose.position.z <= (#[trigger] s[b]).pose.position.z
}

/// Re-sorts the entities by world Z ascending (insertion sort, in place).
/// The result is a permutation of the input: same length, same multiset of
/// entities.
pub fn sort_petals_by_z(petals: &mut Vec<PetalState>)
    ensures
        final(petals).len() == old(petals).len(),
        final(petals)@.to_multiset() == old(petals)@.to_multiset(),
        sorted_by_z(final(petals)@),
{
    let n: usize = petals.len();
    if n < 2 {
        return ;
    }
    let mut i: usize = 1;
    while i < n
        invariant
            1 <= i <= n,
            n == petals.len() == old(petals).len(),
            petals@.to_multiset() == old(petals)@.to_multiset(),
            sorted_by_z(petals@.subrange(0, i as int)),
        decreases n - i,
    {
        let key: PetalState = petals[i];
        let mut p: usize = i;
        while p > 0 && petals[p - 1].pose.position.z > key.pose.position.z
            invariant
                p <= i < n,
                n == petals.len(),
                forall|t: int|
                    p <= t < i ==> (#[trigger] petals@[t]).pose.position.z > key.pose.position.z,
            decreases p,
        {
            p = p - 1;
        }
        let ghost before = petals@;
        let moved: PetalState = petals.remove(i);
        petals.insert(p, moved);
        proof {
            assert(moved == key);
            to_multiset_remove(before, i as int);
            to_multiset_insert(before.remove(i as int), p as int, key);
            to_multiset_contains(before, key);
            assert(before.contains(key)) by {
                assert(before[i as int] == key);
            }
            assert(before.to_multiset().remove(key).insert(key) =~= before.to_multiset()) by {
                broadcast use vstd::multiset::group_multiset_axioms;

            }
            // After remove(i) and insert(p, key), positions 0..p are
            // unchanged, position p holds key, and positions p+1..=i hold
            // the former p..i, all shifted one to the right.
            assert(forall|t: int| 0 <= t < p ==> petals@[t] == #[trigger] before[t]);
            assert(petals@[p as int] == key);
            assert(forall|t: int| p < t <= i ==> petals@[t] == #[trigger] before[t - 1]);
            let ghost s = before.subrange(0, i as int);
            assert(sorted_by_z(s));
            assert(forall|t: int| 0 <= t < i ==> #[trigger] s[t] == before[t]);
            assert(sorted_by_z(petals@.subrange(0, i as int + 1))) by {
                let u = petals@.subrange(0, i as int + 1);
                assert forall|a: int, b: int|
                    0 <= a < b < u.len() implies (#[trigger] u[a]).pose.position.z
                    <= (#[trigger] u[b]).pose.position.z by {
                    assert(u[a] == petals@[a]);
                    assert(u[b] == petals@[b]);
                    if a < p {
                        assert(s[a] == before[a]);
                    }
                    if p < a {
                        assert(s[a - 1] == before[a - 1]);
                    }
                    if b < p {
                        assert(s[b] == before[b]);
                    }
                    if p < b {
                        assert(s[b - 1] == before[b - 1]);
                    }
                    if a < p && b == p {
                        // before[a].z <= before[p - 1].z <= key.z
                        assert(s[a].pose.position.z <= s[p - 1].pose.position.z);
                        assert(before[p - 1].pose.position.z <= key.pose.position.z);
                    }
                    if a == p && p < b {
                        // key.z < before[b - 1].z, a scanned element
                        assert(before[b - 1].pose.position.z > key.pose.position.z);
                    }
                    if a < p && p < b {
                        if a == b - 1 {
                        } else {
                            assert(s[a].pose.position.z <= s[b - 1].pose.position.z);
                        }
                    }
                }
            }
        }
        i = i + 1;
    }
    proof {
        assert(petals@.subrange(0, n as int) =~= petals@);
    }
}

} // verus!
