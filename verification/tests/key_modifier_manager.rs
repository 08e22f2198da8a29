use std::collections::HashMap;

use spessasynth_rs::key_modifier_manager::{key_index, KeyModifier, KeyModifierManager, KeyModifierPatch};


fn make_modifier(velocity: i16, bank_msb: i16, program: i16) -> KeyModifier {
    KeyModifier {
        velocity,
        patch: KeyModifierPatch {
            bank_lsb: 0,
            bank_msb,
            program,
            is_gm_gs_drum: false,
        },
    }
}

// ─── KeyModifierPatch ────────────────────────────────────────────────────

#[test]
fn no_override_patch_has_no_override() {
    let p = KeyModifierPatch::no_override();
    assert!(!p.has_override());
    assert_eq!(p.bank_msb, -1);
    assert_eq!(p.bank_lsb, -1);
    assert_eq!(p.program, -1);
    assert!(!p.is_gm_gs_drum);
}

#[test]
fn patch_with_non_negative_bank_msb_has_override() {
    let mut p = KeyModifierPatch::no_override();
    p.bank_msb = 0;
    assert!(p.has_override());
}

#[test]
fn patch_to_midi_patch_converts_fields() {
    let p = KeyModifierPatch {
        bank_lsb: 3,
        bank_msb: 5,
        program: 10,
        is_gm_gs_drum: true,
    };
    let mp = p.to_midi_patch();
    assert_eq!(mp.bank_lsb, 3);
    assert_eq!(mp.bank_msb, 5);
    assert_eq!(mp.program, 10);
    assert!(mp.is_gm_gs_drum);
}

// ─── KeyModifier default ─────────────────────────────────────────────────

#[test]
fn key_modifier_default_velocity_is_minus_one() {
    let m = KeyModifier::default();
    assert_eq!(m.velocity, -1);
}



#[test]
fn key_modifier_default_patch_has_no_override() {
    let m = KeyModifier::default();
    assert!(!m.patch.has_override());
}

// ─── add_mapping / get_velocity ───────────────────────────────

#[test]
fn add_mapping_then_get_velocity() {
    let mut mgr = KeyModifierManager::new();
    mgr.add_mapping(0, 60, make_modifier(80, -1, -1));
    assert_eq!(mgr.get_velocity(0, 60), 80);
}



#[test]
fn get_velocity_returns_minus_one_when_no_mapping() {
    let mgr = KeyModifierManager::new();
    assert_eq!(mgr.get_velocity(0, 60), -1);
}



#[test]
fn different_channels_are_independent() {
    let mut mgr = KeyModifierManager::new();
    mgr.add_mapping(0, 60, make_modifier(100, -1, -1));
    mgr.add_mapping(1, 60, make_modifier(50, -1, -1));
    assert_eq!(mgr.get_velocity(0, 60), 100);
    assert_eq!(mgr.get_velocity(1, 60), 50);
}

#[test]
fn different_notes_same_channel_are_independent() {
    let mut mgr = KeyModifierManager::new();
    mgr.add_mapping(0, 60, make_modifier(100, -1, -1));
    mgr.add_mapping(0, 61, make_modifier(64, -1, -1));
    assert_eq!(mgr.get_velocity(0, 60), 100);
    assert_eq!(mgr.get_velocity(0, 61), 64);
}

// ─── delete_mapping ──────────────────────────────────────────────────────

#[test]
fn delete_mapping_removes_entry() {
    let mut mgr = KeyModifierManager::new();
    mgr.add_mapping(0, 60, make_modifier(80, -1, -1));
    mgr.delete_mapping(0, 60);
    assert_eq!(mgr.get_velocity(0, 60), -1);
}

#[test]
fn delete_mapping_no_op_when_not_set() {
    let mut mgr = KeyModifierManager::new();
    // Should not panic
    mgr.delete_mapping(0, 60);
    assert_eq!(mgr.get_velocity(0, 60), -1);
}

#[test]
fn delete_mapping_only_removes_specified_key() {
    let mut mgr = KeyModifierManager::new();
    mgr.add_mapping(0, 60, make_modifier(80, -1, -1));
    mgr.add_mapping(0, 61, make_modifier(64, -1, -1));
    mgr.delete_mapping(0, 60);
    assert_eq!(mgr.get_velocity(0, 60), -1);
    assert_eq!(mgr.get_velocity(0, 61), 64); // untouched
}

// ─── clear_mappings ──────────────────────────────────────────────────────

#[test]
fn clear_mappings_removes_all() {
    let mut mgr = KeyModifierManager::new();
    mgr.add_mapping(0, 60, make_modifier(80, -1, -1));
    mgr.add_mapping(1, 72, make_modifier(100, 0, 10));
    mgr.clear_mappings();
    assert_eq!(mgr.get_velocity(0, 60), -1);
    assert_eq!(mgr.get_velocity(1, 72), -1);
    assert!(mgr.get_mappings().is_empty());
}

// ─── set_mappings / get_mappings ─────────────────────────────────────────

#[test]
fn set_mappings_replaces_existing() {
    let mut mgr = KeyModifierManager::new();
    mgr.add_mapping(0, 60, make_modifier(80, -1, -1));

    let mut new_map = HashMap::new();
    new_map.insert(key_index(2, 48), make_modifier(127, 0, 5));
    mgr.set_mappings(new_map);

    // Old mapping gone
    assert_eq!(mgr.get_velocity(0, 60), -1);
    // New mapping present
    assert_eq!(mgr.get_velocity(2, 48), 127);
}

#[test]
fn get_mappings_reflects_current_state() {
    let mut mgr = KeyModifierManager::new();
    mgr.add_mapping(0, 60, make_modifier(80, -1, -1));
    assert_eq!(mgr.get_mappings().len(), 1);
    assert!(mgr.get_mappings().contains_key(&key_index(0, 60)));
}

// ─── has_override_patch ──────────────────────────────────────────────────

#[test]
fn has_override_patch_false_when_no_mapping() {
    let mgr = KeyModifierManager::new();
    assert!(!mgr.has_override_patch(0, 60));
}

#[test]
fn has_override_patch_false_when_bank_msb_is_minus_one() {
    let mut mgr = KeyModifierManager::new();
    mgr.add_mapping(0, 60, make_modifier(-1, -1, -1));
    assert!(!mgr.has_override_patch(0, 60));
}

#[test]
fn has_override_patch_true_when_bank_msb_is_zero() {
    let mut mgr = KeyModifierManager::new();
    mgr.add_mapping(0, 60, make_modifier(-1, 0, 5));
    assert!(mgr.has_override_patch(0, 60));
}

#[test]
fn has_override_patch_true_when_bank_msb_positive() {
    let mut mgr = KeyModifierManager::new();
    mgr.add_mapping(0, 60, make_modifier(-1, 64, 10));
    assert!(mgr.has_override_patch(0, 60));
}

// ─── get_patch ───────────────────────────────────────────────────────────

#[test]
fn get_patch_returns_err_when_no_mapping() {
    let mgr = KeyModifierManager::new();
    assert!(mgr.get_patch(0, 60).is_err());
}

#[test]
fn get_patch_returns_correct_midi_patch() {
    let mut mgr = KeyModifierManager::new();
    let modifier = KeyModifier {
        velocity: -1,
        patch: KeyModifierPatch {
            bank_lsb: 2,
            bank_msb: 5,
            program: 10,
            is_gm_gs_drum: false,
        },
    };
    mgr.add_mapping(0, 60, modifier);
    let patch = mgr.get_patch(0, 60).unwrap();
    assert_eq!(patch.bank_lsb, 2);
    assert_eq!(patch.bank_msb, 5);
    assert_eq!(patch.program, 10);
    assert!(!patch.is_gm_gs_drum);
}

#[test]
fn get_patch_error_message() {
    let mgr = KeyModifierManager::new();
    assert_eq!(mgr.get_patch(0, 60).unwrap_err(), "No modifier.");
}

// ─── overwrite existing mapping ──────────────────────────────────────────

#[test]
fn add_mapping_overwrites_previous_velocity() {
    let mut mgr = KeyModifierManager::new();
    mgr.add_mapping(0, 60, make_modifier(80, -1, -1));
    mgr.add_mapping(0, 60, make_modifier(127, -1, -1));
    assert_eq!(mgr.get_velocity(0, 60), 127);
    assert_eq!(mgr.get_mappings().len(), 1);
}

#[test]
fn key_index_is_channel_times_256_plus_note() {
    assert_eq!(key_index(0, 0), 0);
    assert_eq!(key_index(1, 60), 316);
    assert_eq!(key_index(255, 127), 65407);
}

#[test]
fn delete_then_add_reads_back_new_override() {
    let mut mgr = KeyModifierManager::default();
    mgr.add_mapping(3, 40, make_modifier(10, 2, 7));
    mgr.delete_mapping(3, 40);
    assert!(!mgr.has_override_patch(3, 40));
    mgr.add_mapping(3, 40, make_modifier(20, 4, 9));
    assert_eq!(mgr.get_velocity(3, 40), 20);
    assert!(mgr.has_override_patch(3, 40));
    assert_eq!(mgr.get_patch(3, 40).unwrap().bank_msb, 4);
}
