use falling_petals::config::{
    build_petal_variants, FallingPetalsConfig, PetalTextureConfig, UvRect, VideoExportConfig,
    FP_ONE,
};

#[test]
fn default_config_is_valid() {
    let c = FallingPetalsConfig::default();
    assert!(c.validate());
}

#[test]
fn validate_rejects_zero_volume() {
    let mut c = FallingPetalsConfig::default();
    c.max_x = 0;
    assert!(!c.validate());
}

#[test]
fn validate_rejects_amplitudes_that_outrun_the_wrap() {
    let mut c = FallingPetalsConfig::default();
    // Four frequencies of this cap can displace past one full wrap.
    c.movement_low_freq_max_amplitude = c.max_x;
    assert!(!c.validate());
}

#[test]
fn validate_rejects_inverted_rotation_speeds() {
    let mut c = FallingPetalsConfig::default();
    c.min_rotation_speed = c.max_rotation_speed + 1;
    assert!(!c.validate());
}

#[test]
fn validate_rejects_an_empty_texture_list() {
    let mut c = FallingPetalsConfig::default();
    c.petal_textures = vec![];
    assert!(!c.validate());
}

#[test]
fn validate_rejects_a_texture_with_no_rectangles() {
    let mut c = FallingPetalsConfig::default();
    c.petal_textures[0].petal_coordinates = vec![];
    assert!(!c.validate());
}

#[test]
fn video_export_config_computes_frame_size() {
    let v = VideoExportConfig::new(true, String::from("out.mp4"), 1280, 720, 30);
    assert_eq!(v.pixel_count, 921_600);
    assert_eq!(v.frame_size, 3_686_400);
    assert_eq!(v.frame_rate, 30);
    assert!(v.export_enabled);
}

#[test]
fn variant_table_flattens_textures_in_order() {
    let t0 = PetalTextureConfig {
        scale: FP_ONE,
        x_multiplier: FP_ONE,
        y_multiplier: FP_ONE,
        petal_coordinates: vec![
            UvRect { u: 0, v: 0, w: FP_ONE / 2, h: FP_ONE },
            UvRect { u: FP_ONE / 2, v: 0, w: FP_ONE / 2, h: FP_ONE },
        ],
    };
    let t1 = PetalTextureConfig {
        scale: FP_ONE,
        x_multiplier: FP_ONE / 2,
        y_multiplier: FP_ONE,
        petal_coordinates: vec![UvRect { u: FP_ONE, v: FP_ONE, w: FP_ONE, h: FP_ONE }],
    };
    let variants = build_petal_variants(&vec![t0, t1]);
    assert_eq!(variants.len(), 3);
    assert_eq!(variants[0].petal_texture_index, 0);
    assert_eq!(variants[1].petal_texture_index, 0);
    assert_eq!(variants[2].petal_texture_index, 1);
    // The multipliers scale each coordinate as a 16.16 product.
    assert_eq!(variants[1].u, FP_ONE / 2);
    assert_eq!(variants[2].u, FP_ONE / 2);
    assert_eq!(variants[2].w, FP_ONE / 2);
    assert_eq!(variants[2].h, FP_ONE);
}
