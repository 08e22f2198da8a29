use spessasynth_rs::sysex_helpers::{sys_ex_logging, sys_ex_not_recognized};
use spessasynth_rs::text::array_to_hex_string;


// --- sys_ex_logging: verify no panic ---

#[test]
fn test_logging_empty_syx_does_not_panic() {
    sys_ex_logging(&[], 0, "0", "master volume", "");
}

#[test]
fn test_logging_with_bytes_does_not_panic() {
    sys_ex_logging(&[0x41, 0x10, 0x42, 0x12], 1, &100u8.to_string(), "reverb level", "");
}

#[test]
fn test_logging_numeric_value_does_not_panic() {
    sys_ex_logging(&[0xF0, 0x7E, 0xF7], 9, &3.14f64.to_string(), "pitch bend", "semitones");
}

#[test]
fn test_logging_string_value_does_not_panic() {
    sys_ex_logging(&[0x00, 0xFF], 15, "on", "reverb", "");
}

#[test]
fn test_logging_channel_max_does_not_panic() {
    sys_ex_logging(&[0x7F], 255, &127i32.to_string(), "pan", "");
}

#[test]
fn test_logging_disabled_does_not_panic() {
        sys_ex_logging(&[0x01, 0x02, 0x03], 5, &42i32.to_string(), "chorus", "level");
}

// --- sys_ex_not_recognized: verify no panic ---

#[test]
fn test_not_recognized_empty_syx_does_not_panic() {
    sys_ex_not_recognized(&[], "GM");
}

#[test]
fn test_not_recognized_gs_does_not_panic() {
    sys_ex_not_recognized(&[0x41, 0x10, 0x42], "GS");
}

#[test]
fn test_not_recognized_xg_does_not_panic() {
    sys_ex_not_recognized(&[0x43, 0x10, 0x4C], "XG");
}

#[test]
fn test_not_recognized_disabled_does_not_panic() {
    sys_ex_not_recognized(&[0xFF], "unknown");
}

// --- Format content verification ---

#[test]
fn test_hex_included_in_format() {
    // Verify the hex string that sys_ex_logging should produce internally
    let syx = &[0x41u8, 0x10, 0x42];
    let hex = array_to_hex_string(syx);
    assert!(hex.contains("41"), "hex={hex}");
    assert!(hex.contains("10"), "hex={hex}");
    assert!(hex.contains("42"), "hex={hex}");
}

#[test]
fn test_hex_empty_syx() {
    let hex = array_to_hex_string(&[]);
    assert_eq!(hex, "");
}

// --- All 16 channels should not panic ---

#[test]
fn test_all_channels_no_panic() {
    for ch in 0u8..=15 {
        sys_ex_logging(&[0x7F], ch, &ch.to_string(), "test", "");
    }
}

#[test]
fn test_logging_message_text() {
    let line = sys_ex_logging(&[0x41, 0x10, 0x42, 0x12], 1, "100", "reverb level", "");
    assert_eq!(line, "Channel 1 reverb level. 100 , with 41 10 42 12 ");
}

#[test]
fn test_not_recognized_message_text() {
    let line = sys_ex_not_recognized(&[0x43, 0x10, 0x4C], "XG");
    assert_eq!(line, "Unrecognized XG SysEx: 43 10 4C ");
}

#[test]
fn test_hex_digits_are_upper_case_and_padded() {
    assert_eq!(array_to_hex_string(&[0x0a, 0xff, 0x00]), "0A FF 00 ");
}
