//! Configuration of the simulation, and the petal-variant table derived
//! from it.
//!
//! All fractional quantities are 16.16 fixed point ([`FP_ONE`] is one);
//! spatial lengths are plain integer units; angles are in turn units.  A
//! configuration is checked once by [`FallingPetalsConfig::validate`] after
//! loading; everything downstream requires `valid()`, which bounds each
//! field and ties the motion-field amplitudes and fall speed to the volume
//! bounds so that one toroidal wrap per tick always suffices.

use crate::camera::MAX_MOVE;
use crate::entity::MAX_COORD;
use crate::fixed::{div_t, div_trunc, lemma_product_range};
use crate::motion::{cap_max, MAX_AMPLITUDE, MAX_FREQUENCIES, MAX_PERIOD};
use crate::trig::TURN;
use vstd::prelude::*;

verus! {

/// One in 16.16 fixed point.
pub const FP_ONE: i64 = 0x1_0000;

/// Largest accepted camera turn speed, in turn units per unit of mouse
/// movement.
pub const MAX_TURN_SPEED: i64 = 0x100_0000_0000;

/// A sub-rectangle of a texture atlas, each coordinate a 16.16 fraction of
/// the atlas.
#[derive(Clone, Copy, Debug, PartialEq, Eq, Structural)]
pub struct UvRect {
    pub u: i64,
    pub v: i64,
    pub w: i64,
    pub h: i64,
}

/// One texture atlas: its display scale and the petal rectangles it holds.
#[derive(Clone, Debug)]
pub struct PetalTextureConfig {
    /// Divisor applied to a rectangle's height to get the petal's base
    /// scale; at least one.
    pub scale: i64,
    /// Multiplier applied to the u, v and width coordinates, 16.16.
    pub x_multiplier: i64,
    /// Multiplier applied to the height coordinate, 16.16.
    pub y_multiplier: i64,
    /// The petal rectangles within this atlas.
    pub petal_coordinates: Vec<UvRect>,
}

/// A petal variant: which texture it comes from and which part of it shows.
#[derive(Clone, Copy, Debug, PartialEq, Eq, Structural)]
pub struct PetalVariant {
    pub petal_texture_index: u32,
    pub u: i64,
    pub v: i64,
    pub w: i64,
    pub h: i64,
}

/// Derived parameters of the video export.
#[derive(Clone, Debug)]
pub struct VideoExportConfig {
    pub export_enabled: bool,
    pub output_file: String,
    pub width: u32,
    pub height: u32,
    pub frame_rate: u32,
    pub pixel_count: u32,
    pub frame_size: u64,
}

impl VideoExportConfig {
    /// Derives the per-frame sizes from the resolution: one pixel is four
    /// bytes (BGRA), rows are packed with no padding.
    pub fn new(
        export_enabled: bool,
        output_file: String,
        width: u32,
        height: u32,
        frame_rate: u32,
    ) -> (c: VideoExportConfig)
        requires
            (width as int) * (height as int) <= 0xffff_ffff,
        ensures
            c.export_enabled == export_enabled,
            c.output_file == output_file,
            c.width == width,
            c.height == height,
            c.frame_rate == frame_rate,
            c.pixel_count == (width as int) * (height as int),
            c.frame_size == 4 * (width as int) * (height as int),
    {
        proof {
            assert(0 <= (width as int) * (height as int)) by (nonlinear_arith)
                requires
                    0 <= width,
                    0 <= height,
            ;
            assert(4 * ((width as int) * (height as int)) == 4 * (width as int) * (height
                as int)) by (nonlinear_arith);
        }
        let pixel_count: u32 = width * height;
        VideoExportConfig {
            export_enabled,
            output_file,
            width,
            height,
            frame_rate,
            pixel_count,
            frame_size: 4u64 * (pixel_count as u64),
        }
    }
}

/// Configuration of the falling-petals simulation.
#[derive(Clone, Debug)]
pub struct FallingPetalsConfig {
    /// Number of petals in the simulation volume.
    pub n_petals: usize,
    /// Lower bound of the random per-petal scale factor, 16.16.
    pub min_scale: i64,
    /// Upper bound of the random per-petal scale factor, 16.16.
    pub max_scale: i64,
    /// The texture atlases and the petal rectangles within them.
    pub petal_textures: Vec<PetalTextureConfig>,
    /// Whether to limit the live rendering frame rate.
    pub enable_frame_rate_limit: bool,
    /// The live frame rate limit, if enabled.
    pub frame_rate_limit: u32,
    /// Near clipping plane distance, spatial units.
    pub camera_near: i64,
    /// Far clipping plane distance, spatial units.
    pub camera_far: i64,
    /// Vertical field of view of the camera, turn units.
    pub camera_fov_y: i64,
    /// Half-extent of the simulation volume on the x axis.
    pub max_x: i64,
    /// Half-extent of the simulation volume on the y axis.
    pub max_y: i64,
    /// Half-extent of the simulation volume on the z axis.
    pub max_z: i64,
    /// Camera translation per frame of held movement key, spatial units.
    pub player_movement_speed: i64,
    /// Camera rotation per unit of mouse movement, turn units.
    pub player_turn_speed: i64,
    /// Constant fall per tick, subtracted from every petal's y coordinate.
    pub fall_speed: i64,
    /// Period of the motion field, in seconds of exported video.
    pub movement_period: u32,
    /// Number of frequencies mixed into the motion field.
    pub movement_n_frequencies: u32,
    /// Amplitude cap of the highest frequency, spatial units.
    pub movement_high_freq_max_amplitude: i64,
    /// Amplitude cap of the lowest frequency, spatial units.
    pub movement_low_freq_max_amplitude: i64,
    /// Smallest per-tick rotation speed, turn units.
    pub min_rotation_speed: i64,
    /// Largest per-tick rotation speed, turn units.
    pub max_rotation_speed: i64,
    /// Whether frames are exported to an external video encoder.
    pub enable_video_export: bool,
    /// Output file of the exported video.
    pub video_export_file: String,
    /// Frame rate of the exported video; also the tick rate of the motion
    /// field.
    pub video_export_fps: u32,
    /// Width of the exported video in pixels.
    pub video_export_width: u32,
    /// Height of the exported video in pixels.
    pub video_export_height: u32,
}

/// Number of petal rectangles among the first `k` textures.
pub open spec fn total_variants(ts: Seq<PetalTextureConfig>, k: nat) -> int
    recommends
        k <= ts.len(),
    decreases k,
{
    if k == 0 {
        0
    } else {
        total_variants(ts, (k - 1) as nat) + ts[k - 1].petal_coordinates.len()
    }
}

/// A valid texture list yields at most `0x1000` variants per texture.
pub proof fn lemma_total_variants_bound(ts: Seq<PetalTextureConfig>, k: nat)
    requires
        k <= ts.len(),
        forall|i: int| 0 <= i < ts.len() ==> texture_valid(#[trigger] ts[i]),
    ensures
        0 <= total_variants(ts, k) <= (k as int) * 0x1000,
    decreases k,
{
    if k > 0 {
        lemma_total_variants_bound(ts, (k - 1) as nat);
        assert((k - 1) as int * 0x1000 + 0x1000 == (k as int) * 0x1000) by (nonlinear_arith);
    }
}

/// Per-texture validity: multipliers and rectangles in range, and every
/// rectangle's scaled height at least one unit, so that aspect ratios are
/// well defined.
pub open spec fn texture_valid(t: PetalTextureConfig) -> bool {
    &&& 1 <= t.scale <= 0x1_0000_0000
    &&& 0 <= t.x_multiplier <= FP_ONE
    &&& 1 <= t.y_multiplier <= FP_ONE
    &&& t.petal_coordinates.len() <= 0x1000
    &&& forall|j: int|
        0 <= j < t.petal_coordinates.len() ==> {
            let r = #[trigger] t.petal_coordinates[j];
            &&& 0 <= r.u <= FP_ONE
            &&& 0 <= r.v <= FP_ONE
            &&& 0 <= r.w <= FP_ONE
            &&& 0 <= r.h <= FP_ONE
            &&& t.y_multiplier * r.h >= FP_ONE
        }
}

impl FallingPetalsConfig {
    /// Validity of a configuration.  Bounds every field, and ties the
    /// motion-field amplitude caps and the fall speed to the volume bounds:
    /// the per-tick displacement can then never exceed one wrap.
    pub open spec fn valid(self) -> bool {
        &&& 1 <= self.n_petals <= 0x10_0000
        &&& 1 <= self.max_x <= MAX_COORD
        &&& 1 <= self.max_y <= MAX_COORD
        &&& 1 <= self.max_z <= MAX_COORD
        &&& 0 <= self.fall_speed <= 2 * MAX_COORD
        &&& 0 <= self.min_scale <= self.max_scale <= MAX_AMPLITUDE
        &&& 1 <= self.movement_period
        &&& 1 <= self.video_export_fps
        &&& (self.movement_period as int) * (self.video_export_fps as int) <= MAX_PERIOD
        &&& 1 <= self.movement_n_frequencies <= MAX_FREQUENCIES
        &&& 0 <= self.movement_low_freq_max_amplitude <= MAX_AMPLITUDE
        &&& 0 <= self.movement_high_freq_max_amplitude <= MAX_AMPLITUDE
        &&& (self.movement_n_frequencies as int) * cap_max(
            self.movement_low_freq_max_amplitude as int,
            self.movement_high_freq_max_amplitude as int,
        ) <= 2 * self.max_x
        &&& (self.movement_n_frequencies as int) * cap_max(
            self.movement_low_freq_max_amplitude as int,
            self.movement_high_freq_max_amplitude as int,
        ) <= 2 * self.max_z
        &&& (self.movement_n_frequencies as int) * cap_max(
            self.movement_low_freq_max_amplitude as int,
            self.movement_high_freq_max_amplitude as int,
        ) + self.fall_speed <= 2 * self.max_y
        &&& 0 <= self.min_rotation_speed <= self.max_rotation_speed < TURN
        &&& 0 <= self.player_movement_speed <= MAX_MOVE
        &&& 0 <= self.player_turn_speed <= MAX_TURN_SPEED
        &&& 1 <= self.video_export_width <= 0xffff
        &&& 1 <= self.video_export_height <= 0xffff
        &&& 1 <= self.petal_textures.len() <= 0x1000
        &&& forall|i: int|
            0 <= i < self.petal_textures.len() ==> texture_valid(#[trigger] self.petal_textures[i])
        &&& total_variants(self.petal_textures@, self.petal_textures@.len()) >= 1
    }

    /// Checks validity.
    pub fn validate(&self) -> (b: bool)
        ensures
            b == self.valid(),
    {
        let scalars_ok: bool = 1 <= self.n_petals && self.n_petals <= 0x10_0000 && 1 <= self.max_x
            && self.max_x <= MAX_COORD && 1 <= self.max_y && self.max_y <= MAX_COORD && 1
            <= self.max_z && self.max_z <= MAX_COORD && 0 <= self.fall_speed && self.fall_speed <= 2 * MAX_COORD && 0
            <= self.min_scale && self.min_scale <= self.max_scale && self.max_scale
            <= MAX_AMPLITUDE && 1 <= self.movement_period && 1 <= self.video_export_fps && 1
            <= self.movement_n_frequencies && self.movement_n_frequencies <= MAX_FREQUENCIES && 0
            <= self.movement_low_freq_max_amplitude && self.movement_low_freq_max_amplitude
            <= MAX_AMPLITUDE && 0 <= self.movement_high_freq_max_amplitude
            && self.movement_high_freq_max_amplitude <= MAX_AMPLITUDE && 0
            <= self.min_rotation_speed && self.min_rotation_speed <= self.max_rotation_speed
            && self.max_rotation_speed < TURN && 0 <= self.player_movement_speed
            && self.player_movement_speed <= MAX_MOVE && 0 <= self.player_turn_speed
            && self.player_turn_speed <= MAX_TURN_SPEED && 1 <= self.video_export_width
            && self.video_export_width <= 0xffff && 1 <= self.video_export_height
            && self.video_export_height <= 0xffff && 1 <= self.petal_textures.len()
            && self.petal_textures.len() <= 0x1000;
        if !scalars_ok {
            return false;
        }
        proof {
            assert(0 <= (self.movement_period as int) * (self.video_export_fps as int)
                < 0x1_0000_0000_0000_0000) by (nonlinear_arith)
                requires
                    0 < self.movement_period < 0x1_0000_0000,
                    0 < self.video_export_fps < 0x1_0000_0000,
            ;
        }
        let period_ticks: u64 = (self.movement_period as u64) * (self.video_export_fps as u64);
        if period_ticks > MAX_PERIOD as u64 {
            return false;
        }
        let cap: i64 = if self.movement_low_freq_max_amplitude
            >= self.movement_high_freq_max_amplitude {
            self.movement_low_freq_max_amplitude
        } else {
            self.movement_high_freq_max_amplitude
        };
        proof {
            lemma_product_range(
                self.movement_n_frequencies as int,
                cap as int,
                MAX_FREQUENCIES as int,
                MAX_AMPLITUDE as int,
            );
            assert((MAX_FREQUENCIES as int) * (MAX_AMPLITUDE as int) == 0x1000_0000)
                by (nonlinear_arith);
        }
        let reach: i64 = (self.movement_n_frequencies as i64) * cap;
        if reach > 2 * self.max_x || reach > 2 * self.max_z || reach + self.fall_speed > 2
            * self.max_y {
            return false;
        }
        let mut i: usize = 0;
        let mut count: u64 = 0;
        while i < self.petal_textures.len()
            invariant
                i <= self.petal_textures.len(),
                self.petal_textures.len() <= 0x1000,
                forall|t: int| 0 <= t < i ==> texture_valid(#[trigger] self.petal_textures[t]),
                forall|t: int|
                    0 <= t < i ==> #[trigger] self.petal_textures[t].petal_coordinates.len()
                        <= 0x1000,
                count == total_variants(self.petal_textures@, i as nat),
                count <= (i as int) * 0x1000,
            decreases self.petal_textures.len() - i,
        {
            let t = &self.petal_textures[i];
            if !texture_ok(t) {
                return false;
            }
            proof {
                assert((i as int) * 0x1000 + 0x1000 == ((i + 1) as int) * 0x1000)
                    by (nonlinear_arith);
            }
            count = count + (t.petal_coordinates.len() as u64);
            i = i + 1;
        }
        count >= 1
    }
}

impl Default for FallingPetalsConfig {
    /// A ready-to-run configuration: a thousand petals in a cube of
    /// half-extent 100 000 units, a gentle four-frequency motion field with
    /// a one-minute period at thirty frames per second, and one full-atlas
    /// petal texture.
    fn default() -> (c: FallingPetalsConfig)
        ensures
            c.valid(),
            c.n_petals == 1000,
            c.max_x == 100_000,
            c.max_y == 100_000,
            c.max_z == 100_000,
            c.fall_speed == 120,
            c.movement_period == 60,
            c.video_export_fps == 30,
            c.movement_n_frequencies == 4,
            c.enable_video_export == false,
            c.petal_textures.len() == 1,
    {
        let mut petal_coordinates: Vec<UvRect> = Vec::new();
        petal_coordinates.push(UvRect { u: 0, v: 0, w: FP_ONE, h: FP_ONE });
        let texture = PetalTextureConfig {
            scale: FP_ONE,
            x_multiplier: FP_ONE,
            y_multiplier: FP_ONE,
            petal_coordinates,
        };
        let mut petal_textures: Vec<PetalTextureConfig> = Vec::new();
        petal_textures.push(texture);
        let c = FallingPetalsConfig {
            n_petals: 1000,
            min_scale: 0x8000,
            max_scale: 0x1_8000,
            petal_textures,
            enable_frame_rate_limit: true,
            frame_rate_limit: 60,
            camera_near: 1,
            camera_far: 200_000,
            camera_fov_y: 10923,
            max_x: 100_000,
            max_y: 100_000,
            max_z: 100_000,
            player_movement_speed: 500,
            player_turn_speed: 16,
            fall_speed: 120,
            movement_period: 60,
            movement_n_frequencies: 4,
            movement_high_freq_max_amplitude: 40,
            movement_low_freq_max_amplitude: 160,
            min_rotation_speed: 16,
            max_rotation_speed: 256,
            enable_video_export: false,
            video_export_file: default_video_file_name(),
            video_export_fps: 30,
            video_export_width: 1280,
            video_export_height: 720,
        };
        proof {
            assert(total_variants(c.petal_textures@, 1) == 1) by {
                assert(total_variants(c.petal_textures@, 0) == 0);
            }
            assert(forall|i: int|
                0 <= i < c.petal_textures.len() ==> texture_valid(
                    #[trigger] c.petal_textures[i],
                )) by {
                assert(texture_valid(c.petal_textures[0]));
            }
        }
        c
    }
}

/// The default name of the exported video file.
fn default_video_file_name() -> (s: String)
    ensures
        s@ == "petals_video.mp4"@,
{
    "petals_video.mp4".to_string()
}

/// Checks the per-texture validity conditions.
fn texture_ok(t: &PetalTextureConfig) -> (b: bool)
    ensures
        b == texture_valid(*t),
{
    let ranges_ok: bool = 1 <= t.scale && t.scale <= 0x1_0000_0000 && 0 <= t.x_multiplier
        && t.x_multiplier <= FP_ONE && 1 <= t.y_multiplier && t.y_multiplier <= FP_ONE
        && t.petal_coordinates.len() <= 0x1000;
    if !ranges_ok {
        return false;
    }
    let mut j: usize = 0;
    while j < t.petal_coordinates.len()
        invariant
            j <= t.petal_coordinates.len(),
            1 <= t.y_multiplier <= FP_ONE,
            forall|r: int|
                0 <= r < j ==> {
                    let c = #[trigger] t.petal_coordinates[r];
                    &&& 0 <= c.u <= FP_ONE
                    &&& 0 <= c.v <= FP_ONE
                    &&& 0 <= c.w <= FP_ONE
                    &&& 0 <= c.h <= FP_ONE
                    &&& t.y_multiplier * c.h >= FP_ONE
                },
        decreases t.petal_coordinates.len() - j,
    {
        let c = t.petal_coordinates[j];
        if !(0 <= c.u && c.u <= FP_ONE && 0 <= c.v && c.v <= FP_ONE && 0 <= c.w && c.w <= FP_ONE
            && 0 <= c.h && c.h <= FP_ONE) {
            return false;
        }
        proof {
            lemma_product_range(t.y_multiplier as int, c.h as int, FP_ONE as int, FP_ONE as int);
            assert((FP_ONE as int) * (FP_ONE as int) == 0x1_0000_0000) by (nonlinear_arith);
        }
        if t.y_multiplier * c.h < FP_ONE {
            return false;
        }
        j = j + 1;
    }
    true
}

/// The variant a texture's rectangle `j` produces: the atlas index, the
/// rectangle scaled by the texture's multipliers.
pub open spec fn variant_spec(t: PetalTextureConfig, tex_idx: int, j: int) -> PetalVariant {
    PetalVariant {
        petal_texture_index: tex_idx as u32,
        u: div_t(t.x_multiplier * t.petal_coordinates[j].u, FP_ONE as int) as i64,
        v: div_t(t.x_multiplier * t.petal_coordinates[j].v, FP_ONE as int) as i64,
        w: div_t(t.x_multiplier * t.petal_coordinates[j].w, FP_ONE as int) as i64,
        h: div_t(t.y_multiplier * t.petal_coordinates[j].h, FP_ONE as int) as i64,
    }
}

/// The variants of one texture, in rectangle order.
pub open spec fn texture_variants(t: PetalTextureConfig, tex_idx: int) -> Seq<PetalVariant> {
    Seq::new(t.petal_coordinates.len() as nat, |j: int| variant_spec(t, tex_idx, j))
}

/// The variants of the first `k` textures, concatenated in order.
pub open spec fn variants_prefix(ts: Seq<PetalTextureConfig>, k: nat) -> Seq<PetalVariant>
    recommends
        k <= ts.len(),
    decreases k,
{
    if k == 0 {
        Seq::empty()
    } else {
        variants_prefix(ts, (k - 1) as nat) + texture_variants(ts[k - 1], k - 1)
    }
}

/// The full variant table of a configuration: every texture's rectangles,
/// flattened in texture order.
pub open spec fn variants_of(ts: Seq<PetalTextureConfig>) -> Seq<PetalVariant> {
    variants_prefix(ts, ts.len())
}

/// Range facts of a well-formed variant table entry.
pub open spec fn variant_ranges(v: PetalVariant, n_textures: int) -> bool {
    &&& (v.petal_texture_index as int) < n_textures
    &&& 0 <= v.u <= FP_ONE
    &&& 0 <= v.v <= FP_ONE
    &&& 0 <= v.w <= FP_ONE
    &&& 1 <= v.h <= FP_ONE
}

/// Builds the variant table: for each texture, in order, one variant per
/// petal rectangle, scaled by the texture's multipliers.
pub fn build_petal_variants(textures: &Vec<PetalTextureConfig>) -> (variants: Vec<PetalVariant>)
    requires
        textures.len() <= 0x1000,
        forall|i: int| 0 <= i < textures.len() ==> texture_valid(#[trigger] textures[i]),
    ensures
        variants@ == variants_of(textures@),
        variants.len() == total_variants(textures@, textures@.len()),
        forall|k: int|
            0 <= k < variants.len() ==> variant_ranges(
                #[trigger] variants[k],
                textures.len() as int,
            ),
{
    let mut variants: Vec<PetalVariant> = Vec::new();
    let mut i: usize = 0;
    while i < textures.len()
        invariant
            i <= textures.len(),
            textures.len() <= 0x1000,
            forall|t: int| 0 <= t < textures.len() ==> texture_valid(#[trigger] textures[t]),
            variants@ == variants_prefix(textures@, i as nat),
            variants.len() == total_variants(textures@, i as nat),
            forall|k: int|
                0 <= k < variants.len() ==> variant_ranges(
                    #[trigger] variants[k],
                    textures.len() as int,
                ),
        decreases textures.len() - i,
    {
        let t = &textures[i];
        let mut j: usize = 0;
        while j < t.petal_coordinates.len()
            invariant
                j <= t.petal_coordinates.len(),
                i < textures.len() <= 0x1000,
                t == &textures[i as int],
                forall|x: int| 0 <= x < textures.len() ==> texture_valid(#[trigger] textures[x]),
                variants@ == variants_prefix(textures@, i as nat) + texture_variants(
                    textures@[i as int],
                    i as int,
                ).take(j as int),
                variants.len() == total_variants(textures@, i as nat) + j,
                forall|k: int|
                    0 <= k < variants.len() ==> variant_ranges(
                        #[trigger] variants[k],
                        textures.len() as int,
                    ),
            decreases t.petal_coordinates.len() - j,
        {
            let c = t.petal_coordinates[j];
            proof {
                lemma_product_range(t.x_multiplier as int, c.u as int, FP_ONE as int, FP_ONE as int);
                lemma_product_range(t.x_multiplier as int, c.v as int, FP_ONE as int, FP_ONE as int);
                lemma_product_range(t.x_multiplier as int, c.w as int, FP_ONE as int, FP_ONE as int);
                lemma_product_range(t.y_multiplier as int, c.h as int, FP_ONE as int, FP_ONE as int);
                assert((FP_ONE as int) * (FP_ONE as int) == 0x1_0000_0000) by (nonlinear_arith);
                crate::fixed::lemma_div_t_bounded(
                    t.x_multiplier * c.u,
                    FP_ONE as int,
                    FP_ONE as int,
                );
                crate::fixed::lemma_div_t_bounded(
                    t.x_multiplier * c.v,
                    FP_ONE as int,
                    FP_ONE as int,
                );
                crate::fixed::lemma_div_t_bounded(
                    t.x_multiplier * c.w,
                    FP_ONE as int,
                    FP_ONE as int,
                );
                crate::fixed::lemma_div_t_bounded(
                    t.y_multiplier * c.h,
                    FP_ONE as int,
                    FP_ONE as int,
                );
                // The scaled height is at least one unit because the
                // product is at least FP_ONE.
                vstd::arithmetic::div_mod::lemma_div_is_ordered(
                    FP_ONE as int,
                    t.y_multiplier * c.h,
                    FP_ONE as int,
                );
                vstd::arithmetic::div_mod::lemma_div_by_self(FP_ONE as int);
            }
            let v = PetalVariant {
                petal_texture_index: i as u32,
                u: div_trunc(t.x_multiplier * c.u, FP_ONE),
                v: div_trunc(t.x_multiplier * c.v, FP_ONE),
                w: div_trunc(t.x_multiplier * c.w, FP_ONE),
                h: div_trunc(t.y_multiplier * c.h, FP_ONE),
            };
            variants.push(v);
            proof {
                assert(variants@ == variants_prefix(textures@, i as nat) + texture_variants(
                    textures@[i as int],
                    i as int,
                ).take(j as int + 1)) by {
                    assert(texture_variants(textures@[i as int], i as int).take(j as int + 1)
                        =~= texture_variants(textures@[i as int], i as int).take(j as int).push(
                        variant_spec(textures@[i as int], i as int, j as int),
                    ));
                    assert(v == variant_spec(textures@[i as int], i as int, j as int));
                    assert(variants@ =~= variants_prefix(textures@, i as nat) + texture_variants(
                        textures@[i as int],
                        i as int,
                    ).take(j as int + 1));
                }
            }
            j = j + 1;
        }
        proof {
            assert(texture_variants(textures@[i as int], i as int).take(j as int)
                =~= texture_variants(textures@[i as int], i as int));
            assert(variants@ =~= variants_prefix(textures@, (i + 1) as nat));
        }
        i = i + 1;
    }
    variants
}

} // verus!
