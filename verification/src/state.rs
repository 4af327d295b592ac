//! The whole simulation state and its per-tick update: the entity store,
//! the three motion-field axes, the camera, and the tick counter.
//!
//! Invariants held across every tick ([`FallingPetalsState::wf`]): the
//! configuration is valid, the motion fields match the configured period and
//! their amplitudes fit inside one toroidal wrap, every entity sits inside
//! the simulation volume with a unit-norm orientation, and the entity
//! collection is sorted by world Z.

use crate::camera::UprightPerspectiveCamera;
use crate::config::{
    build_petal_variants,
    lemma_total_variants_bound,
    variant_ranges,
    variants_of,
    FallingPetalsConfig,
    PetalVariant,
    FP_ONE,
};
use crate::entity::{
    in_bounds,
    lemma_permutation_keeps_petal_props,
    petal_wf,
    sort_petals_by_z,
    sorted_by_z,
    step_petals,
    stepped_petal,
    PetalState,
    Pose,
    Vec3,
};
use crate::fixed::div_trunc;
use crate::input::ControllerState;
use crate::motion::{
    generate_motion_field,
    lemma_amp_sum_bound,
    mix_sample,
    total_amplitude,
    MotionField,
    MAX_AMPLITUDE,
};
use crate::quat::{axis_angle, identity, renormalized, unit_norm, Quat, QUAT_ONE};
use crate::random::rand_i64_in;
use crate::trig::TURN;
use vstd::prelude::*;

verus! {

/// A uniformly distributed random orientation: a four-component uniform
/// draw, renormalized to unit length.  The identity stands in for the
/// measure-zero draws whose direction is undefined or whose rescaling
/// misses the norm band.
pub fn random_orientation() -> (q: Quat)
    ensures
        unit_norm(q),
{
    let w = rand_i64_in(-QUAT_ONE, QUAT_ONE);
    let x = rand_i64_in(-QUAT_ONE, QUAT_ONE);
    let y = rand_i64_in(-QUAT_ONE, QUAT_ONE);
    let z = rand_i64_in(-QUAT_ONE, QUAT_ONE);
    match renormalized(&Quat { w, x, y, z }) {
        Some(q) => q,
        None => identity(),
    }
}

/// A random per-tick spin: a rotation about a uniformly drawn fixed axis by
/// an angle drawn between the two speeds.  The identity stands in for
/// degenerate draws.
pub fn generate_random_rotation(min_angle: i64, max_angle: i64) -> (q: Quat)
    requires
        0 <= min_angle <= max_angle < TURN,
    ensures
        unit_norm(q),
{
    let ax = rand_i64_in(-QUAT_ONE, QUAT_ONE);
    let ay = rand_i64_in(-QUAT_ONE, QUAT_ONE);
    let az = rand_i64_in(-QUAT_ONE, QUAT_ONE);
    let axis = match renormalized(&Quat { w: 0, x: ax, y: ay, z: az }) {
        Some(a) => a,
        None => Quat { w: 0, x: 0, y: 0, z: QUAT_ONE },
    };
    let angle = rand_i64_in(min_angle, max_angle);
    match axis_angle(&axis, angle) {
        Some(q) => q,
        None => identity(),
    }
}

/// The simulation state.
pub struct FallingPetalsState {
    /// The validated configuration.
    pub config: FallingPetalsConfig,
    /// The camera the host renders through.
    pub camera: UprightPerspectiveCamera,
    /// The variant table: one entry per petal rectangle of the atlases.
    pub petal_variants: Vec<PetalVariant>,
    /// The entities, sorted by world Z after every tick.
    pub petal_states: Vec<PetalState>,
    /// Per-axis motion fields.
    pub x_movement: MotionField,
    pub y_movement: MotionField,
    pub z_movement: MotionField,
    /// Index of the current tick within the motion-field period.
    pub movement_frame_idx: u32,
    /// The motion-field period in ticks: the configured period in seconds
    /// times the export frame rate.
    pub movement_period: u32,
}

impl FallingPetalsState {
    /// The cross-tick invariant of the simulation.
    pub open spec fn wf(self) -> bool {
        &&& self.config.valid()
        &&& self.camera.wf()
        &&& self.movement_period == (self.config.movement_period as int)
            * (self.config.video_export_fps as int)
        &&& self.x_movement.wf() && self.x_movement.period == self.movement_period
        &&& self.y_movement.wf() && self.y_movement.period == self.movement_period
        &&& self.z_movement.wf() && self.z_movement.period == self.movement_period
        &&& total_amplitude(self.x_movement.amplitudes@) <= 2 * self.config.max_x
        &&& total_amplitude(self.y_movement.amplitudes@) + self.config.fall_speed <= 2
            * self.config.max_y
        &&& total_amplitude(self.z_movement.amplitudes@) <= 2 * self.config.max_z
        &&& self.movement_frame_idx < self.movement_period
        &&& self.petal_variants@ == variants_of(self.config.petal_textures@)
        &&& forall|i: int|
            0 <= i < self.petal_states.len() ==> petal_wf(#[trigger] self.petal_states[i])
                && in_bounds(
                self.petal_states[i].pose.position,
                self.config.max_x as int,
                self.config.max_y as int,
                self.config.max_z as int,
            )
        &&& sorted_by_z(self.petal_states@)
    }

    /// Builds the initial simulation state from a valid configuration:
    /// generates the three motion fields, builds the variant table, creates
    /// `n_petals` entities with uniformly random poses inside the volume and
    /// random variants, spins and scales, sorts them back to front, and
    /// places the camera on the front face of the volume looking in.
    pub fn new(config: FallingPetalsConfig) -> (s: FallingPetalsState)
        requires
            config.valid(),
        ensures
            s.wf(),
            s.config == config,
            s.petal_states.len() == config.n_petals,
            s.movement_frame_idx == 0,
            s.movement_period == (config.movement_period as int) * (config.video_export_fps
                as int),
    {
        proof {
            assert(1 <= (config.movement_period as int) * (config.video_export_fps as int))
                by (nonlinear_arith)
                requires
                    1 <= config.movement_period,
                    1 <= config.video_export_fps,
            ;
        }
        let period64: u64 = (config.movement_period as u64) * (config.video_export_fps as u64);
        let period: u32 = period64 as u32;
        let n_freq = config.movement_n_frequencies;
        let low = config.movement_low_freq_max_amplitude;
        let high = config.movement_high_freq_max_amplitude;
        let x_movement = generate_motion_field(period, n_freq, low, high);
        let y_movement = generate_motion_field(period, n_freq, low, high);
        let z_movement = generate_motion_field(period, n_freq, low, high);
        let petal_variants = build_petal_variants(&config.petal_textures);
        proof {
            lemma_total_variants_bound(
                config.petal_textures@,
                config.petal_textures@.len(),
            );
            assert((config.petal_textures@.len() as int) * 0x1000 <= 0x100_0000)
                by (nonlinear_arith)
                requires
                    config.petal_textures@.len() <= 0x1000,
            ;
        }
        let n_variants: usize = petal_variants.len();
        let mut petal_states: Vec<PetalState> = Vec::new();
        let mut i: usize = 0;
        while i < config.n_petals
            invariant
                i <= config.n_petals,
                config.valid(),
                petal_variants@ == variants_of(config.petal_textures@),
                n_variants == petal_variants.len(),
                1 <= n_variants <= 0x100_0000,
                forall|k: int|
                    0 <= k < petal_variants.len() ==> variant_ranges(
                        #[trigger] petal_variants[k],
                        config.petal_textures.len() as int,
                    ),
                petal_states.len() == i,
                forall|j: int|
                    0 <= j < i ==> petal_wf(#[trigger] petal_states[j]) && in_bounds(
                        petal_states[j].pose.position,
                        config.max_x as int,
                        config.max_y as int,
                        config.max_z as int,
                    ),
            decreases config.n_petals - i,
        {
            let vi: i64 = rand_i64_in(0, (n_variants - 1) as i64);
            let variant_index: u32 = vi as u32;
            let variant: PetalVariant = petal_variants[vi as usize];
            // Shape of the sprite: width over height of its source region.
            let aspect: i64 = div_trunc(variant.w * FP_ONE, variant.h);
            let tex_scale: i64 = config.petal_textures[variant.petal_texture_index as usize].scale;
            // Base scale of the variant, shrunk by the atlas's display
            // scale, then stretched by a random factor between the
            // configured bounds.
            let base: i64 = div_trunc(variant.h * FP_ONE, tex_scale);
            let su: i64 = rand_i64_in(config.min_scale, config.max_scale);
            proof {
                crate::fixed::lemma_product_range(
                    variant.w as int,
                    FP_ONE as int,
                    FP_ONE as int,
                    FP_ONE as int,
                );
                crate::fixed::lemma_product_range(
                    variant.h as int,
                    FP_ONE as int,
                    FP_ONE as int,
                    FP_ONE as int,
                );
                assert((FP_ONE as int) * (FP_ONE as int) == 0x1_0000_0000) by (nonlinear_arith);
                crate::fixed::lemma_product_range(
                    base as int,
                    su as int,
                    0x1_0000_0000,
                    MAX_AMPLITUDE as int,
                );
                assert(0x1_0000_0000 * (MAX_AMPLITUDE as int) == 0x10_0000_0000_0000)
                    by (nonlinear_arith);
                crate::fixed::lemma_div_t_bounded(base as int, tex_scale as int, 0x1_0000_0000);
                assert(0x1_0000_0000 * (tex_scale as int) >= 0x1_0000_0000) by (nonlinear_arith)
                    requires
                        1 <= tex_scale,
                ;
            }
            let scale: i64 = div_trunc(base * su, FP_ONE);
            let pose = Pose {
                position: Vec3 {
                    x: rand_i64_in(-config.max_x, config.max_x),
                    y: rand_i64_in(-config.max_y, config.max_y),
                    z: rand_i64_in(-config.max_z, config.max_z),
                },
                orientation: random_orientation(),
                aspect_ratio: aspect,
                scale,
            };
            let rotation = generate_random_rotation(
                config.min_rotation_speed,
                config.max_rotation_speed,
            );
            petal_states.push(PetalState { pose, variant_index, rotation });
            i = i + 1;
        }
        let ghost unsorted = petal_states@;
        sort_petals_by_z(&mut petal_states);
        proof {
            lemma_permutation_keeps_petal_props(
                unsorted,
                petal_states@,
                config.max_x as int,
                config.max_y as int,
                config.max_z as int,
            );
        }
        // The camera sits in the middle of the front face of the volume,
        // looking along the negative z axis (a quarter turn left of the
        // zero-pan direction, which is positive x).
        let camera = UprightPerspectiveCamera::new(
            Vec3 { x: 0, y: 0, z: config.max_z },
            0,
            0,
            config.camera_fov_y,
            FP_ONE,
            config.camera_near,
            config.camera_far,
        );
        FallingPetalsState {
            config,
            camera,
            petal_variants,
            petal_states,
            x_movement,
            y_movement,
            z_movement,
            movement_frame_idx: 0,
            movement_period: period,
        }
    }

    /// The displacement the motion field adds on each axis at tick index
    /// `idx` of the period.
    pub open spec fn field_at(self, idx: int) -> (int, int, int) {
        (
            mix_sample(
                self.x_movement.amplitudes@,
                self.x_movement.phases@,
                self.movement_period as int,
                idx,
            ),
            mix_sample(
                self.y_movement.amplitudes@,
                self.y_movement.phases@,
                self.movement_period as int,
                idx,
            ),
            mix_sample(
                self.z_movement.amplitudes@,
                self.z_movement.phases@,
                self.movement_period as int,
                idx,
            ),
        )
    }

    /// One simulation tick.  Every entity is advanced by
    /// [`stepped_petal`] — spin, constant fall, the motion field's
    /// displacement for this tick, toroidal wrap — and the collection is
    /// re-sorted by world Z, so afterwards every coordinate is inside the
    /// volume and the draw order is back to front.  The tick index advances
    /// modulo the period.
    pub fn update(&mut self)
        requires
            old(self).wf(),
        ensures
            final(self).wf(),
            final(self).config == old(self).config,
            final(self).camera == old(self).camera,
            final(self).petal_variants == old(self).petal_variants,
            final(self).x_movement == old(self).x_movement,
            final(self).y_movement == old(self).y_movement,
            final(self).z_movement == old(self).z_movement,
            final(self).movement_period == old(self).movement_period,
            final(self).movement_frame_idx == (old(self).movement_frame_idx + 1) as int % (
            old(self).movement_period as int),
            final(self).petal_states.len() == old(self).petal_states.len(),
            final(self).petal_states@.to_multiset() == old(self).petal_states@.map_values(
                (|p: PetalState| stepped_petal(
                    p,
                    old(self).config.fall_speed as int,
                    old(self).field_at(old(self).movement_frame_idx as int).0,
                    old(self).field_at(old(self).movement_frame_idx as int).1,
                    old(self).field_at(old(self).movement_frame_idx as int).2,
                    old(self).config.max_x as int,
                    old(self).config.max_y as int,
                    old(self).config.max_z as int,
                )),
            ).to_multiset(),
            sorted_by_z(final(self).petal_states@),
    {
        let idx = self.movement_frame_idx;
        let dx = self.x_movement.value(idx);
        let dy = self.y_movement.value(idx);
        let dz = self.z_movement.value(idx);
        proof {
            lemma_amp_sum_bound(
                self.x_movement.amplitudes@,
                self.x_movement.amplitudes@.len(),
                MAX_AMPLITUDE as int,
            );
            lemma_amp_sum_bound(
                self.y_movement.amplitudes@,
                self.y_movement.amplitudes@.len(),
                MAX_AMPLITUDE as int,
            );
            lemma_amp_sum_bound(
                self.z_movement.amplitudes@,
                self.z_movement.amplitudes@.len(),
                MAX_AMPLITUDE as int,
            );
        }
        let fall = self.config.fall_speed;
        let bx = self.config.max_x;
        let by = self.config.max_y;
        let bz = self.config.max_z;
        step_petals(&mut self.petal_states, fall, dx, dy, dz, bx, by, bz);
        proof {
            assert(self.petal_states@ =~= old(self).petal_states@.map_values(
                (|p: PetalState| stepped_petal(
                    p,
                    old(self).config.fall_speed as int,
                    old(self).field_at(old(self).movement_frame_idx as int).0,
                    old(self).field_at(old(self).movement_frame_idx as int).1,
                    old(self).field_at(old(self).movement_frame_idx as int).2,
                    old(self).config.max_x as int,
                    old(self).config.max_y as int,
                    old(self).config.max_z as int,
                )),
            ));
        }
        let ghost stepped = self.petal_states@;
        sort_petals_by_z(&mut self.petal_states);
        proof {
            lemma_permutation_keeps_petal_props(
                stepped,
                self.petal_states@,
                self.config.max_x as int,
                self.config.max_y as int,
                self.config.max_z as int,
            );
        }
        self.movement_frame_idx = (self.movement_frame_idx + 1) % self.movement_period;
    }

    /// Applies one frame of user input to the camera: held movement keys
    /// translate it relative to its pan angle, and, when mouse look is
    /// active, the accumulated mouse delta pans and tilts it.  The camera
    /// only moves while its location stays comfortably inside the
    /// addressable range; the input accumulators are consumed either way.
    pub fn update_based_on_input_state(&mut self, input: &mut ControllerState, mouse_look: bool)
        requires
            old(self).wf(),
            old(input).wf(),
        ensures
            final(self).wf(),
            final(self).config == old(self).config,
            final(self).petal_states == old(self).petal_states,
            final(self).x_movement == old(self).x_movement,
            final(self).y_movement == old(self).y_movement,
            final(self).z_movement == old(self).z_movement,
            final(self).movement_frame_idx == old(self).movement_frame_idx,
            final(input).pan_delta == 0,
            final(input).tilt_delta == 0,
            mouse_look ==> final(self).camera.pan_angle == crate::fixed::rem_t(
                old(self).camera.pan_angle + old(self).config.player_turn_speed * old(
                    input,
                ).pan_delta,
                TURN as int,
            ),
            mouse_look ==> final(self).camera.tilt_angle == crate::fixed::clamp_spec(
                old(self).camera.tilt_angle + old(self).config.player_turn_speed * old(
                    input,
                ).tilt_delta,
                old(self).camera.min_tilt as int,
                old(self).camera.max_tilt as int,
            ),
            !mouse_look ==> final(self).camera.pan_angle == old(self).camera.pan_angle
                && final(self).camera.tilt_angle == old(self).camera.tilt_angle,
            in_bounds(
                old(self).camera.location,
                crate::camera::MAX_COORD_SUM as int,
                crate::camera::MAX_COORD_SUM as int,
                crate::camera::MAX_COORD_SUM as int,
            ) ==> final(self).camera.location == old(self).camera.moved_location(
                (old(self).config.player_movement_speed as int) * old(
                    input,
                ).forward_multiplier_spec(),
                (old(self).config.player_movement_speed as int) * old(
                    input,
                ).right_multiplier_spec(),
                (old(self).config.player_movement_speed as int) * old(
                    input,
                ).jump_multiplier_spec(),
            ),
    {
        let speed = self.config.player_movement_speed;
        let mf = input.forward_multiplier();
        let mr = input.right_muliplier();
        let mu = input.jump_multiplier();
        proof {
            crate::fixed::lemma_product_range(
                speed as int,
                mf as int,
                crate::camera::MAX_MOVE as int,
                1,
            );
            crate::fixed::lemma_product_range(
                speed as int,
                mr as int,
                crate::camera::MAX_MOVE as int,
                1,
            );
            crate::fixed::lemma_product_range(
                speed as int,
                mu as int,
                crate::camera::MAX_MOVE as int,
                1,
            );
            assert((crate::camera::MAX_MOVE as int) * 1 == crate::camera::MAX_MOVE)
                by (nonlinear_arith);
        }
        let f = speed * mf;
        let r = speed * mr;
        let u = speed * mu;
        if self.camera.location.x <= crate::camera::MAX_COORD_SUM && self.camera.location.x
            >= -crate::camera::MAX_COORD_SUM && self.camera.location.y
            <= crate::camera::MAX_COORD_SUM && self.camera.location.y
            >= -crate::camera::MAX_COORD_SUM && self.camera.location.z
            <= crate::camera::MAX_COORD_SUM && self.camera.location.z
            >= -crate::camera::MAX_COORD_SUM {
            self.camera.move_relative_to_pan_angle(f, r, u);
        }
        if mouse_look {
            let (pan_delta, tilt_delta) = input.get_pan_tilt_delta();
            let turn = self.config.player_turn_speed;
            proof {
                crate::fixed::lemma_product_range(
                    turn as int,
                    pan_delta as int,
                    crate::config::MAX_TURN_SPEED as int,
                    crate::input::MAX_ACCUM as int,
                );
                crate::fixed::lemma_product_range(
                    turn as int,
                    tilt_delta as int,
                    crate::config::MAX_TURN_SPEED as int,
                    crate::input::MAX_ACCUM as int,
                );
                assert((crate::config::MAX_TURN_SPEED as int) * (crate::input::MAX_ACCUM as int)
                    <= crate::camera::MAX_ANGLE_DELTA) by (nonlinear_arith);
            }
            self.camera.pan_and_tilt(turn * pan_delta, turn * tilt_delta);
        } else {
            let _ = input.get_pan_tilt_delta();
        }
    }
}

} // verus!
