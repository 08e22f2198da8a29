use spessasynth_rs::controller_tables::{
    build_default_midi_controller_values, drum_reverb_reset_value, is_non_resettable,
    CONTROLLER_TABLE_SIZE, CUSTOM_CONTROLLER_TABLE_SIZE, NON_CC_INDEX_OFFSET,
};


// --- Constants ---

#[test]
fn test_non_cc_index_offset() {
    assert_eq!(NON_CC_INDEX_OFFSET, 128);
}

#[test]
fn test_controller_table_size() {
    assert_eq!(CONTROLLER_TABLE_SIZE, 147);
}

#[test]
fn test_custom_controller_table_size() {
    assert_eq!(CUSTOM_CONTROLLER_TABLE_SIZE, 7);
}

// --- build_default_midi_controller_values(): array length ---

#[test]
fn test_default_midi_controller_values_length() {
    assert_eq!(build_default_midi_controller_values().len(), CONTROLLER_TABLE_SIZE);
}

// --- build_default_midi_controller_values(): non-zero entries ---

#[test]
fn test_main_volume() {
    // mainVolume = 7, value = 100 << 7 = 12800
    assert_eq!(build_default_midi_controller_values()[7], 12800);
}

#[test]
fn test_balance() {
    // balance = 8, value = 64 << 7 = 8192
    assert_eq!(build_default_midi_controller_values()[8], 8192);
}

#[test]
fn test_pan() {
    // pan = 10, value = 64 << 7 = 8192
    assert_eq!(build_default_midi_controller_values()[10], 8192);
}

#[test]
fn test_expression_controller() {
    // expressionController = 11, value = 127 << 7 = 16256
    assert_eq!(build_default_midi_controller_values()[11], 16256);
}

#[test]
fn test_portamento_on_off() {
    // portamentoOnOff = 65, value = 127 << 7 = 16256
    assert_eq!(build_default_midi_controller_values()[65], 16256);
}

#[test]
fn test_filter_resonance() {
    // filterResonance = 71, value = 64 << 7 = 8192
    assert_eq!(build_default_midi_controller_values()[71], 8192);
}

#[test]
fn test_release_time() {
    assert_eq!(build_default_midi_controller_values()[72], 8192);
}

#[test]
fn test_attack_time() {
    assert_eq!(build_default_midi_controller_values()[73], 8192);
}

#[test]
fn test_brightness() {
    assert_eq!(build_default_midi_controller_values()[74], 8192);
}

#[test]
fn test_decay_time() {
    assert_eq!(build_default_midi_controller_values()[75], 8192);
}

#[test]
fn test_vibrato_rate() {
    assert_eq!(build_default_midi_controller_values()[76], 8192);
}

#[test]
fn test_vibrato_depth() {
    assert_eq!(build_default_midi_controller_values()[77], 8192);
}

#[test]
fn test_vibrato_delay() {
    assert_eq!(build_default_midi_controller_values()[78], 8192);
}

#[test]
fn test_general_purpose_controller6() {
    // generalPurposeController6 = 81
    assert_eq!(build_default_midi_controller_values()[81], 8192);
}

#[test]
fn test_general_purpose_controller8() {
    // generalPurposeController8 = 83
    assert_eq!(build_default_midi_controller_values()[83], 8192);
}

#[test]
fn test_non_registered_parameter_lsb() {
    // nonRegisteredParameterLSB = 98, value = 127 << 7 = 16256
    assert_eq!(build_default_midi_controller_values()[98], 16256);
}

#[test]
fn test_non_registered_parameter_msb() {
    // nonRegisteredParameterMSB = 99
    assert_eq!(build_default_midi_controller_values()[99], 16256);
}

#[test]
fn test_registered_parameter_lsb() {
    // registeredParameterLSB = 100
    assert_eq!(build_default_midi_controller_values()[100], 16256);
}

#[test]
fn test_registered_parameter_msb() {
    // registeredParameterMSB = 101
    assert_eq!(build_default_midi_controller_values()[101], 16256);
}

#[test]
fn test_pitch_wheel() {
    // NON_CC_INDEX_OFFSET + pitchWheel = 128 + 14 = 142, value = 64 << 7 = 8192
    assert_eq!(build_default_midi_controller_values()[142], 8192);
}

#[test]
fn test_pitch_wheel_range() {
    // NON_CC_INDEX_OFFSET + pitchWheelRange = 128 + 16 = 144, value = 2 << 7 = 256
    assert_eq!(build_default_midi_controller_values()[144], 256);
}

// --- build_default_midi_controller_values(): zero entries ---

#[test]
fn test_zero_entries_bank_select() {
    // bankSelect = 0 should be 0
    assert_eq!(build_default_midi_controller_values()[0], 0);
}

#[test]
fn test_zero_entries_modulation_wheel() {
    // modulationWheel = 1 should be 0
    assert_eq!(build_default_midi_controller_values()[1], 0);
}

#[test]
fn test_zero_entries_sustain_pedal() {
    // sustainPedal = 64 should be 0
    assert_eq!(build_default_midi_controller_values()[64], 0);
}

#[test]
fn test_zero_entries_last() {
    // last entry (146) should be 0
    assert_eq!(build_default_midi_controller_values()[146], 0);
}












#[test]
fn test_non_resettable_controllers() {
    assert!(is_non_resettable(0));
    assert!(is_non_resettable(7));
    assert!(is_non_resettable(101));
    assert!(!is_non_resettable(1));
    assert!(!is_non_resettable(64));
    assert!(!is_non_resettable(11));
}

#[test]
fn test_drum_reverb_reset_value_kicks_are_dry() {
    assert_eq!(drum_reverb_reset_value(35), 0);
    assert_eq!(drum_reverb_reset_value(36), 0);
    assert_eq!(drum_reverb_reset_value(38), 127);
    assert_eq!(drum_reverb_reset_value(0), 127);
}

#[test]
fn test_default_values_are_seven_bit_values_shifted() {
    let v = build_default_midi_controller_values();
    for x in v.iter() {
        assert_eq!(*x % 128, 0);
        assert!(*x >= 0 && *x <= 127 * 128);
    }
}
