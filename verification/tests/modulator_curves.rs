use spessasynth_rs::modulator_curves::{
    MODULATOR_RESOLUTION, MOD_CURVE_TYPES_AMOUNT, MOD_SOURCE_TRANSFORM_POSSIBILITIES,
};

#[test]
fn test_modulator_resolution() {
    assert_eq!(MODULATOR_RESOLUTION, 16_384);
}

#[test]
fn test_mod_curve_types_amount() {
    assert_eq!(MOD_CURVE_TYPES_AMOUNT, 4);
}

#[test]
fn test_mod_source_transform_possibilities() {
    assert_eq!(MOD_SOURCE_TRANSFORM_POSSIBILITIES, 4);
}
