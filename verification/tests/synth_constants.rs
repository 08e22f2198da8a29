use spessasynth_rs::midi_system::MIDISystem;
use spessasynth_rs::synth_constants::{
    embedded_sound_bank_id, embedded_sound_bank_id_cached, embedded_sound_bank_id_for, CONTROLLER_TABLE_SIZE, DEFAULT_NRPN,
    DEFAULT_PERCUSSION, DEFAULT_RPN, DEFAULT_SYNTH_MODE, GENERATOR_OVERRIDE_NO_CHANGE_VALUE,
    SPESSA_BUFSIZE, VOICE_CAP,
};

// --- VOICE_CAP ---

#[test]
fn test_voice_cap() {
    assert_eq!(VOICE_CAP, 350);
}

// --- DEFAULT_PERCUSSION ---

#[test]
fn test_default_percussion() {
    assert_eq!(DEFAULT_PERCUSSION, 9);
}

// --- DEFAULT_SYNTH_MODE ---

#[test]
fn test_default_synth_mode_is_gs() {
    assert_eq!(DEFAULT_SYNTH_MODE, MIDISystem::Gs);
}

// --- embedded_sound_bank_id ---

#[test]
fn test_embedded_sound_bank_id_format() {
    let id = embedded_sound_bank_id();
    assert!(id.starts_with("SPESSASYNTH_EMBEDDED_BANK_"));
    assert!(id.ends_with("_DO_NOT_DELETE"));
}

// --- GENERATOR_OVERRIDE_NO_CHANGE_VALUE ---

#[test]
fn test_generator_override_no_change_value() {
    assert_eq!(GENERATOR_OVERRIDE_NO_CHANGE_VALUE, i16::MAX);
}

// --- SPESSA_BUFSIZE ---

#[test]
fn test_spessa_bufsize() {
    assert_eq!(SPESSA_BUFSIZE, 128);
}

// --- CONTROLLER_TABLE_SIZE ---

#[test]
fn test_controller_table_size_is_128() {
    assert_eq!(CONTROLLER_TABLE_SIZE, 128);
}

// --- DEFAULT_RPN / DEFAULT_NRPN ---

#[test]
fn test_default_rpn() {
    assert_eq!(DEFAULT_RPN, 0x7f);
}

#[test]
fn test_default_nrpn() {
    assert_eq!(DEFAULT_NRPN, 0);
}

// --- consistency checks ---

#[test]
fn test_default_percussion_within_16_channels() {
    assert!((DEFAULT_PERCUSSION as u32) < 16);
}

#[test]
fn test_default_synth_mode_matches_synth_system_default() {
    // DEFAULT_SYNTH_MODE must equal MIDISystem::default() (Gs)
    assert_eq!(DEFAULT_SYNTH_MODE, MIDISystem::default());
}

#[test]
fn test_embedded_sound_bank_id_for_nonce() {
    assert_eq!(
        embedded_sound_bank_id_for(123456789),
        "SPESSASYNTH_EMBEDDED_BANK_123456789_DO_NOT_DELETE"
    );
}

#[test]
fn test_embedded_sound_bank_id_stable() {
    // The cache keeps the identifier: calling twice returns the same value.
    let mut cache: Option<String> = None;
    let id1 = embedded_sound_bank_id_cached(&mut cache);
    let id2 = embedded_sound_bank_id_cached(&mut cache);
    assert_eq!(id1, id2);
    assert_eq!(cache, Some(id1.clone()));
    assert!(id1.starts_with("SPESSASYNTH_EMBEDDED_BANK_"));
    assert!(id1.ends_with("_DO_NOT_DELETE"));
}

#[test]
fn embedded_id_cache_gives_back_what_it_holds() {
    let mut cache = Some("kept".to_string());
    assert_eq!(embedded_sound_bank_id_cached(&mut cache), "kept");
    assert_eq!(cache, Some("kept".to_string()));
}
