use hearton_public::config::{
    GiConfig, GiQuality, HeartOnConfig, LightingConfig, MeshingConfig, QualityLevel, ShadowConfig,
};
use hearton_public::ieee::{
    at_most_zero, BITS_0_1, BITS_0_2, BITS_0_3, BITS_0_4, BITS_0_5, BITS_0_6, BITS_0_8, BITS_1_0,
    BITS_1_2, BITS_1_5, BITS_2_0,
};

#[test]
fn test_preset_generation() {
    let low = HeartOnConfig::preset(QualityLevel::Low);
    assert_eq!(low.quality_level, QualityLevel::Low);
    assert!(!low.shadows.enabled);

    let ultra = HeartOnConfig::preset(QualityLevel::Ultra);
    assert_eq!(ultra.quality_level, QualityLevel::Ultra);
    assert!(ultra.shadows.enabled);
    assert_eq!(ultra.shadows.resolution, 4096);
}

#[test]
fn test_validation() {
    let mut config = HeartOnConfig::default();
    assert!(config.validate().is_ok());

    config.lighting.max_lights = 20000;
    assert!(config.validate().is_err());
}

#[test]
fn presets_field_by_field() {
    let low = HeartOnConfig::preset(QualityLevel::Low);
    assert_eq!(low.lighting, LightingConfig { max_lights: 100, cluster_depth: 0 });
    assert_eq!(low.shadows, ShadowConfig { enabled: false, resolution: 0, cascades: 0 });
    assert_eq!(low.gi, GiConfig { enabled: false, quality: GiQuality::Low });
    assert_eq!(f32::from_bits(low.meshing.lod_distance_scale), 0.5);

    let medium = HeartOnConfig::preset(QualityLevel::Medium);
    assert_eq!(medium.quality_level, QualityLevel::Medium);
    assert_eq!(medium.lighting.max_lights, 500);
    assert_eq!(medium.shadows, ShadowConfig { enabled: true, resolution: 1024, cascades: 0 });
    assert!(!medium.gi.enabled);
    assert_eq!(f32::from_bits(medium.meshing.lod_distance_scale), 1.0);

    let high = HeartOnConfig::preset(QualityLevel::High);
    assert_eq!(high.quality_level, QualityLevel::High);
    assert_eq!(high.lighting.max_lights, 1000);
    assert_eq!(high.shadows.resolution, 2048);
    assert_eq!(high.gi, GiConfig { enabled: true, quality: GiQuality::Low });
    assert_eq!(f32::from_bits(high.meshing.lod_distance_scale), 1.5);

    let ultra = HeartOnConfig::preset(QualityLevel::Ultra);
    assert_eq!(ultra.lighting.max_lights, 2000);
    assert_eq!(ultra.gi, GiConfig { enabled: true, quality: GiQuality::High });
    assert_eq!(f32::from_bits(ultra.meshing.lod_distance_scale), 2.0);

    // the custom level falls back to the medium preset, level and all
    assert_eq!(HeartOnConfig::preset(QualityLevel::Custom), medium);
    assert_eq!(HeartOnConfig::default(), medium);
    assert_eq!(QualityLevel::default(), QualityLevel::Medium);
}

#[test]
fn the_bits_of_the_numbers() {
    assert_eq!(BITS_0_1, 0.1f32.to_bits());
    assert_eq!(BITS_0_2, 0.2f32.to_bits());
    assert_eq!(BITS_0_3, 0.3f32.to_bits());
    assert_eq!(BITS_0_4, 0.4f32.to_bits());
    assert_eq!(BITS_0_5, 0.5f32.to_bits());
    assert_eq!(BITS_0_6, 0.6f32.to_bits());
    assert_eq!(BITS_0_8, 0.8f32.to_bits());
    assert_eq!(BITS_1_0, 1.0f32.to_bits());
    assert_eq!(BITS_1_2, 1.2f32.to_bits());
    assert_eq!(BITS_1_5, 1.5f32.to_bits());
    assert_eq!(BITS_2_0, 2.0f32.to_bits());
}

#[test]
fn every_preset_is_valid() {
    for level in [
        QualityLevel::Low,
        QualityLevel::Medium,
        QualityLevel::High,
        QualityLevel::Ultra,
        QualityLevel::Custom,
    ] {
        assert_eq!(HeartOnConfig::preset(level).validate(), Ok(()));
    }
}

#[test]
fn validation_of_the_parts() {
    assert!(LightingConfig { max_lights: 10000, cluster_depth: 0 }.validate().is_ok());
    assert_eq!(
        LightingConfig { max_lights: 10001, cluster_depth: 0 }.validate(),
        Err("Max lights cannot exceed 10000".to_string())
    );
    assert!(ShadowConfig { enabled: false, resolution: 8192, cascades: 9 }.validate().is_ok());
    assert_eq!(
        ShadowConfig { enabled: false, resolution: 8193, cascades: 0 }.validate(),
        Err("Shadow resolution too high".to_string())
    );
    assert!(GiConfig { enabled: true, quality: GiQuality::High }.validate().is_ok());
    assert_eq!(
        MeshingConfig { lod_distance_scale: 0.0f32.to_bits() }.validate(),
        Err("LOD distance scale must be positive".to_string())
    );
}

#[test]
fn the_lod_scale_must_be_positive_as_a_number() {
    let samples = [
        0.0f32,
        -0.0,
        1.0,
        -1.0,
        0.5,
        f32::MIN_POSITIVE,
        -f32::MIN_POSITIVE,
        f32::from_bits(1),
        f32::from_bits(0x8000_0001),
        f32::MAX,
        f32::MIN,
        f32::INFINITY,
        f32::NEG_INFINITY,
        f32::NAN,
        -f32::NAN,
        f32::from_bits(0x7F80_0001),
        f32::from_bits(0xFF80_0001),
        f32::from_bits(0x7FFF_FFFF),
        f32::from_bits(0xFFFF_FFFF),
        f32::EPSILON,
        -f32::EPSILON,
        1e-40,
        -1e-40,
    ];
    for value in samples {
        let config = MeshingConfig { lod_distance_scale: value.to_bits() };
        // refused exactly where the number is zero or less
        assert_eq!(config.validate().is_err(), value <= 0.0, "{:?}", value);
        assert_eq!(at_most_zero(value.to_bits()), value <= 0.0, "{:?}", value);
    }
}

#[test]
fn the_first_complaint_is_reported() {
    let mut config = HeartOnConfig::default();
    config.meshing.lod_distance_scale = (-1.0f32).to_bits();
    assert_eq!(config.validate(), Err("LOD distance scale must be positive".to_string()));
    config.shadows.resolution = 10000;
    assert_eq!(config.validate(), Err("Shadow resolution too high".to_string()));
    config.lighting.max_lights = 20000;
    assert_eq!(config.validate(), Err("Max lights cannot exceed 10000".to_string()));
}
