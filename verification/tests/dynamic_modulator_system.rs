use spessasynth_rs::controller_tables::NON_CC_INDEX_OFFSET;
use spessasynth_rs::dynamic_modulator_system::DynamicModulatorSystem;
use spessasynth_rs::generator_types;
use spessasynth_rs::modulator::ModulatorSource;
use spessasynth_rs::modulator_sources::CURVE_LINEAR;


// -----------------------------------------------------------------------
// Helpers
// -----------------------------------------------------------------------

/// Test helper: returns the expected ID for a (source, destination) combination.
fn expected_id(src: usize, dst: u16, bipolar: bool, negative: bool) -> String {
    format!("{}-{}-{}-{}", src, dst, bipolar, negative)
}

// -----------------------------------------------------------------------
// new / default
// -----------------------------------------------------------------------

#[test]
fn test_new_empty_list() {
    let sys = DynamicModulatorSystem::new();
    assert!(sys.modulator_list.is_empty());
}

#[test]
fn test_default_empty_list() {
    let sys = DynamicModulatorSystem::default();
    assert!(sys.modulator_list.is_empty());
}

// -----------------------------------------------------------------------
// reset_modulators
// -----------------------------------------------------------------------

#[test]
fn test_reset_clears_all() {
    let mut sys = DynamicModulatorSystem::new();
    sys.set_modulator(10, generator_types::PAN, 64000, false, false);
    sys.set_modulator(7, generator_types::INITIAL_ATTENUATION, 122880, false, false);
    assert_eq!(sys.modulator_list.len(), 2);
    sys.reset_modulators();
    assert!(sys.modulator_list.is_empty());
}

#[test]
fn test_reset_on_empty_is_noop() {
    let mut sys = DynamicModulatorSystem::new();
    sys.reset_modulators();
    assert!(sys.modulator_list.is_empty());
}

// -----------------------------------------------------------------------
// set_modulator: CC source (source < NON_CC_INDEX_OFFSET)
// -----------------------------------------------------------------------

#[test]
fn test_set_modulator_cc_source_adds_entry() {
    let mut sys = DynamicModulatorSystem::new();
    // CC 10 (pan), destination = PAN, amount = 500
    sys.set_modulator(10, generator_types::PAN, 64000, false, false);
    assert_eq!(sys.modulator_list.len(), 1);
    let entry = &sys.modulator_list[0];
    assert_eq!(entry.modulator.transform_amount_128ths, 64000);
    assert_eq!(entry.modulator.destination, generator_types::PAN);
    assert!(entry.modulator.primary_source.is_cc);
    assert_eq!(entry.modulator.primary_source.index, 10);
}

#[test]
fn test_set_modulator_cc_source_id_is_correct() {
    let mut sys = DynamicModulatorSystem::new();
    sys.set_modulator(10, generator_types::PAN, 64000, false, false);
    assert_eq!(
        sys.modulator_list[0].id,
        expected_id(10, generator_types::PAN, false, false)
    );
}

#[test]
fn test_set_modulator_cc_primary_source_is_linear() {
    let mut sys = DynamicModulatorSystem::new();
    sys.set_modulator(7, generator_types::INITIAL_ATTENUATION, 122880, false, false);
    assert_eq!(
        sys.modulator_list[0].modulator.primary_source.curve_type,
        CURVE_LINEAR
    );
}

// -----------------------------------------------------------------------
// set_modulator: non-CC source (source >= NON_CC_INDEX_OFFSET)
// -----------------------------------------------------------------------

#[test]
fn test_set_modulator_non_cc_source() {
    let mut sys = DynamicModulatorSystem::new();
    // NON_CC_INDEX_OFFSET + 2 (note_on_velocity)
    let source = NON_CC_INDEX_OFFSET + 2;
    sys.set_modulator(
        source,
        generator_types::INITIAL_ATTENUATION,
        122880,
        false,
        false,
    );
    let entry = &sys.modulator_list[0];
    assert!(!entry.modulator.primary_source.is_cc);
    assert_eq!(entry.modulator.primary_source.index, 2);
}

#[test]
fn test_set_modulator_non_cc_id_uses_original_source() {
    let mut sys = DynamicModulatorSystem::new();
    let source = NON_CC_INDEX_OFFSET + 2;
    sys.set_modulator(
        source,
        generator_types::INITIAL_ATTENUATION,
        122880,
        false,
        false,
    );
    assert_eq!(
        sys.modulator_list[0].id,
        expected_id(source, generator_types::INITIAL_ATTENUATION, false, false)
    );
}

// -----------------------------------------------------------------------
// set_modulator: update (when an entry with the same ID exists)
// -----------------------------------------------------------------------

#[test]
fn test_set_modulator_updates_existing_amount() {
    let mut sys = DynamicModulatorSystem::new();
    sys.set_modulator(10, generator_types::PAN, 38400, false, false);
    // Re-set with the same source/destination/polarity
    sys.set_modulator(10, generator_types::PAN, 89600, false, false);
    // Only one entry
    assert_eq!(sys.modulator_list.len(), 1);
    assert_eq!(sys.modulator_list[0].modulator.transform_amount_128ths, 89600);
}

#[test]
fn test_set_modulator_different_bipolar_creates_separate_entries() {
    let mut sys = DynamicModulatorSystem::new();
    sys.set_modulator(10, generator_types::PAN, 38400, false, false);
    sys.set_modulator(10, generator_types::PAN, 38400, true, false);
    assert_eq!(sys.modulator_list.len(), 2);
}

#[test]
fn test_set_modulator_different_negative_creates_separate_entries() {
    let mut sys = DynamicModulatorSystem::new();
    sys.set_modulator(10, generator_types::PAN, 38400, false, false);
    sys.set_modulator(10, generator_types::PAN, 38400, false, true);
    assert_eq!(sys.modulator_list.len(), 2);
}

#[test]
fn test_set_modulator_different_destination_creates_separate_entries() {
    let mut sys = DynamicModulatorSystem::new();
    sys.set_modulator(10, generator_types::PAN, 38400, false, false);
    sys.set_modulator(10, generator_types::INITIAL_ATTENUATION, 38400, false, false);
    assert_eq!(sys.modulator_list.len(), 2);
}

// -----------------------------------------------------------------------
// set_modulator: when amount=0 (TS behavior: delete then add new with amount=0)
// -----------------------------------------------------------------------

#[test]
fn test_set_modulator_amount_zero_on_existing_replaces_with_zero() {
    let mut sys = DynamicModulatorSystem::new();
    // First add an entry with amount=500
    sys.set_modulator(10, generator_types::PAN, 64000, false, false);
    assert_eq!(sys.modulator_list.len(), 1);
    // Set with amount=0: TS behavior deletes then adds new (amount=0)
    sys.set_modulator(10, generator_types::PAN, 0, false, false);
    assert_eq!(sys.modulator_list.len(), 1);
    assert_eq!(sys.modulator_list[0].modulator.transform_amount_128ths, 0);
}

#[test]
fn test_set_modulator_amount_zero_on_nonexistent_adds_zero_entry() {
    let mut sys = DynamicModulatorSystem::new();
    // No entry exists with amount=0 → same as TS, a zero-amount entry is added
    sys.set_modulator(10, generator_types::PAN, 0, false, false);
    assert_eq!(sys.modulator_list.len(), 1);
    assert_eq!(sys.modulator_list[0].modulator.transform_amount_128ths, 0);
}

// -----------------------------------------------------------------------
// secondary_source should be default (zero value)
// -----------------------------------------------------------------------

#[test]
fn test_set_modulator_secondary_source_is_default() {
    let mut sys = DynamicModulatorSystem::new();
    sys.set_modulator(10, generator_types::PAN, 64000, false, false);
    let sec = &sys.modulator_list[0].modulator.secondary_source;
    assert_eq!(*sec, ModulatorSource::default());
}

// -----------------------------------------------------------------------
// bipolar / negative flag propagation
// -----------------------------------------------------------------------

#[test]
fn test_set_modulator_bipolar_flag_passed_to_primary_source() {
    let mut sys = DynamicModulatorSystem::new();
    sys.set_modulator(10, generator_types::PAN, 64000, true, false);
    assert!(sys.modulator_list[0].modulator.primary_source.is_bipolar);
}

#[test]
fn test_set_modulator_not_bipolar() {
    let mut sys = DynamicModulatorSystem::new();
    sys.set_modulator(10, generator_types::PAN, 64000, false, false);
    assert!(!sys.modulator_list[0].modulator.primary_source.is_bipolar);
}

#[test]
fn test_set_modulator_is_negative_not_passed_to_primary_source() {
    // is_negative is used for modulator ID generation, but
    // ModulatorSource::new always sets is_negative=false (same as TS)
    let mut sys = DynamicModulatorSystem::new();
    sys.set_modulator(10, generator_types::PAN, 64000, false, true);
    assert!(!sys.modulator_list[0].modulator.primary_source.is_negative);
}

// -----------------------------------------------------------------------
// ID format verification
// -----------------------------------------------------------------------

#[test]
fn test_id_format_cc_unipolar_positive() {
    let mut sys = DynamicModulatorSystem::new();
    sys.set_modulator(10, generator_types::PAN, 12800, false, false);
    assert_eq!(
        sys.modulator_list[0].id,
        format!("10-{}-false-false", generator_types::PAN)
    );
}

#[test]
fn test_id_format_bipolar_negative() {
    let mut sys = DynamicModulatorSystem::new();
    sys.set_modulator(7, generator_types::INITIAL_ATTENUATION, 12800, true, true);
    assert_eq!(
        sys.modulator_list[0].id,
        format!("7-{}-true-true", generator_types::INITIAL_ATTENUATION)
    );
}

// -----------------------------------------------------------------------
// transform_type is always 0 (linear)
// -----------------------------------------------------------------------

#[test]
fn test_set_modulator_transform_type_is_zero() {
    let mut sys = DynamicModulatorSystem::new();
    sys.set_modulator(10, generator_types::PAN, 64000, false, false);
    assert_eq!(sys.modulator_list[0].modulator.transform_type, 0);
}

// -----------------------------------------------------------------------
// is_effect_modulator / is_default_resonant_modulator are always false
// -----------------------------------------------------------------------

#[test]
fn test_set_modulator_not_effect_modulator() {
    let mut sys = DynamicModulatorSystem::new();
    sys.set_modulator(10, generator_types::PAN, 64000, false, false);
    assert!(!sys.modulator_list[0].modulator.is_effect_modulator);
}

#[test]
fn test_set_modulator_not_default_resonant_modulator() {
    let mut sys = DynamicModulatorSystem::new();
    sys.set_modulator(10, generator_types::PAN, 64000, false, false);
    assert!(
        !sys.modulator_list[0]
            .modulator
            .is_default_resonant_modulator
    );
}

// -----------------------------------------------------------------------
// Independence of multiple entries
// -----------------------------------------------------------------------

#[test]
fn test_multiple_entries_independent() {
    let mut sys = DynamicModulatorSystem::new();
    sys.set_modulator(1, generator_types::VIB_LFO_TO_PITCH, 6400, false, false);
    sys.set_modulator(7, generator_types::INITIAL_ATTENUATION, 122880, false, false);
    sys.set_modulator(11, generator_types::INITIAL_ATTENUATION, 122880, false, false);
    assert_eq!(sys.modulator_list.len(), 3);
    // Verify the destination of each entry
    assert_eq!(
        sys.modulator_list[0].modulator.destination,
        generator_types::VIB_LFO_TO_PITCH
    );
    assert_eq!(
        sys.modulator_list[1].modulator.destination,
        generator_types::INITIAL_ATTENUATION
    );
}

#[test]
fn test_get_modulator_id_text() {
    assert_eq!(
        DynamicModulatorSystem::get_modulator_id(142, 8, true, false),
        "142-8-true-false"
    );
}

#[test]
fn test_delete_modulator_removes_only_matching_id() {
    let mut sys = DynamicModulatorSystem::new();
    sys.set_modulator(10, generator_types::PAN, 128, false, false);
    sys.set_modulator(11, generator_types::PAN, 256, false, false);
    sys.set_modulator(12, generator_types::PAN, 384, false, false);
    sys.delete_modulator("11-17-false-false");
    assert_eq!(sys.modulator_list.len(), 2);
    assert_eq!(sys.modulator_list[0].id, "10-17-false-false");
    assert_eq!(sys.modulator_list[1].id, "12-17-false-false");
}

#[test]
fn test_repeated_sets_keep_one_entry_per_id() {
    let mut sys = DynamicModulatorSystem::default();
    for amount in [128, 0, 640, 0, 0, 1280] {
        sys.set_modulator(NON_CC_INDEX_OFFSET + 14, generator_types::FINE_TUNE, amount, true, false);
        assert_eq!(sys.modulator_list.len(), 1);
        assert_eq!(sys.modulator_list[0].modulator.transform_amount_128ths, amount);
    }
}

#[test]
fn test_fractional_amount_is_exact_in_128ths() {
    // An LFO depth of 100/128 * 600 cents is 468.75 cents, i.e. 60000 / 128.
    let mut sys = DynamicModulatorSystem::new();
    sys.set_modulator(1, generator_types::VIB_LFO_TO_PITCH, 60000, false, false);
    assert_eq!(sys.modulator_list[0].modulator.transform_amount_128ths, 60000);
}
