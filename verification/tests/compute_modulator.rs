use spessasynth_rs::compute_modulator::{
    clamp_to_limit, destination_output, effective_base, modulator_is_affected, recompute_affected, source_index,
    source_is_cc,
    SourceFilter,
};
// -----------------------------------------------------------------------
// source_is_cc / source_index helper tests
// -----------------------------------------------------------------------

#[test]
fn test_source_is_cc_false_for_bit7_zero() {
    assert!(!source_is_cc(0b0000_0111)); // bit7=0
}

#[test]
fn test_source_is_cc_true_for_bit7_one() {
    assert!(source_is_cc(0b1000_0111)); // bit7=1
}

#[test]
fn test_source_index_extracts_low_7_bits() {
    assert_eq!(source_index(0b1001_0101), 0b001_0101); // = 21
    assert_eq!(source_index(0b0111_1111), 0x7F); // max = 127
    assert_eq!(source_index(0b1000_0000), 0);
}

// -----------------------------------------------------------------------
// effective_base helper tests
// -----------------------------------------------------------------------

#[test]
fn test_effective_base_without_offset() {
    let gens = [10i16, 20, 30];
    assert_eq!(effective_base(&gens, &[], 1, false), 20);
}

#[test]
fn test_effective_base_with_offset() {
    let gens = [10i16, 20, 30];
    let offsets = [1i16, 5, -3];
    assert_eq!(effective_base(&gens, &offsets, 1, true), 25); // 20 + 5
}

#[test]
fn test_effective_base_saturates_on_overflow() {
    let gens = [i16::MAX];
    let offsets = [1i16];
    assert_eq!(effective_base(&gens, &offsets, 0, true), i16::MAX);
}

#[test]
fn test_effective_base_out_of_bounds_returns_zero() {
    let gens: [i16; 0] = [];
    assert_eq!(effective_base(&gens, &[], 5, false), 0);
}

#[test]
fn test_effective_base_saturates_on_underflow() {
    let gens = [i16::MIN + 2];
    let offsets = [-5i16];
    assert_eq!(effective_base(&gens, &offsets, 0, true), i16::MIN);
}

#[test]
fn test_effective_base_missing_offset_counts_as_zero() {
    let gens = [10i16, 20, 30];
    let offsets = [1i16];
    assert_eq!(effective_base(&gens, &offsets, 2, true), 30);
}

#[test]
fn test_source_filter_default_is_all() {
    assert_eq!(SourceFilter::default(), SourceFilter::All);
}

const CC7_SOURCE: u16 = 0x0087;
const PITCH_WHEEL_SOURCE: u16 = 14;

#[test]
fn affected_filter_matches_kind_and_index() {
    assert!(modulator_is_affected(CC7_SOURCE, 0, SourceFilter::CC, 7));
    assert!(!modulator_is_affected(CC7_SOURCE, 0, SourceFilter::CC, 1));
    assert!(modulator_is_affected(PITCH_WHEEL_SOURCE, 0, SourceFilter::NonCC, 14));
    assert!(!modulator_is_affected(PITCH_WHEEL_SOURCE, 0, SourceFilter::CC, 14));
    assert!(modulator_is_affected(PITCH_WHEEL_SOURCE, CC7_SOURCE, SourceFilter::CC, 7));
    assert!(modulator_is_affected(0, 0, SourceFilter::All, 99));
}

#[test]
fn destination_output_sums_values_of_the_destination() {
    // PAN (17) receives 10 and 0, another destination receives 40.
    assert_eq!(destination_output(0, &[17, 17, 8], &[10, 0, 40], 17), 10);
    assert_eq!(destination_output(50, &[17], &[30], 17), 80);
    assert_eq!(destination_output(105, &[17], &[0], 17), 105);
    // A missing value counts as 0.
    assert_eq!(destination_output(1, &[17, 17], &[2], 17), 3);
}

#[test]
fn clamp_to_limit_raises_then_lowers() {
    assert_eq!(clamp_to_limit(600, -500, 500), 500);
    assert_eq!(clamp_to_limit(-900, -500, 500), -500);
    assert_eq!(clamp_to_limit(10, -500, 500), 10);
    assert_eq!(clamp_to_limit(0, 10, 5), 5);
}

fn pan_limits() -> Vec<Option<(i32, i32)>> {
    let mut l = vec![None; 63];
    l[17] = Some((-500, 500));
    l
}

#[test]
fn partial_pass_updates_matching_destination() {
    let mut modulated = vec![0i16; 63];
    recompute_affected(&[(CC7_SOURCE, 0, 17)], &[0; 63], &[0; 63], false, &[30], SourceFilter::CC, 7, &pan_limits(), &mut modulated);
    assert_eq!(modulated[17], 30);
}

#[test]
fn partial_pass_skips_non_matching_source() {
    let mut modulated = vec![0i16; 63];
    recompute_affected(&[(CC7_SOURCE, 0, 17)], &[0; 63], &[0; 63], false, &[30], SourceFilter::CC, 1, &pan_limits(), &mut modulated);
    assert_eq!(modulated[17], 0);
    recompute_affected(&[(PITCH_WHEEL_SOURCE, 0, 17)], &[0; 63], &[0; 63], false, &[20], SourceFilter::CC, 14, &pan_limits(), &mut modulated);
    assert_eq!(modulated[17], 0);
    recompute_affected(&[(PITCH_WHEEL_SOURCE, 0, 17)], &[0; 63], &[0; 63], false, &[20], SourceFilter::NonCC, 14, &pan_limits(), &mut modulated);
    assert_eq!(modulated[17], 20);
}

#[test]
fn partial_pass_sums_base_offset_and_all_values_then_limits() {
    let mut gens = vec![0i16; 63];
    gens[17] = 100;
    let mut modulated = vec![0i16; 63];
    // Both modulators aim at PAN; only the first is selected, but both values count.
    recompute_affected(
        &[(CC7_SOURCE, 0, 17), (0, 0, 17)],
        &gens,
        &[5; 63],
        true,
        &[10, 7],
        SourceFilter::CC,
        7,
        &pan_limits(),
        &mut modulated,
    );
    assert_eq!(modulated[17], 122);
    recompute_affected(&[(CC7_SOURCE, 0, 17)], &gens, &[0; 63], false, &[900], SourceFilter::CC, 7, &pan_limits(), &mut modulated);
    assert_eq!(modulated[17], 500);
    // A generator without limits, or a destination out of range, is left alone.
    recompute_affected(&[(CC7_SOURCE, 0, 8), (CC7_SOURCE, 0, -1)], &gens, &[0; 63], false, &[40, 1], SourceFilter::CC, 7, &pan_limits(), &mut modulated);
    assert_eq!(modulated[8], 0);
}
