use std::sync::{Arc, Mutex};

use spessasynth_rs::midi_patch::MidiPatch;
use spessasynth_rs::midi_system::SynthSystem;
use spessasynth_rs::preset::{BasicPreset, BasicSoundBank};
use spessasynth_rs::sound_bank_manager::SoundBankManager;
// -----------------------------------------------------------------------
// Helpers
// -----------------------------------------------------------------------

fn melodic_preset(program: u8, bank_msb: u8) -> BasicPreset {
    BasicPreset {
        program,
        bank_msb,
        ..BasicPreset::default()
    }
}

fn drum_preset(program: u8) -> BasicPreset {
    BasicPreset {
        program,
        is_gm_gs_drum: true,
        ..BasicPreset::default()
    }
}

fn make_bank(presets: Vec<BasicPreset>) -> BasicSoundBank {
    let mut bank = BasicSoundBank::default();
    bank.presets = presets;
    bank
}

/// Creates a SoundBankManager and a shared counter incremented by the callback.
fn make_manager() -> (SoundBankManager<impl Fn()>, Arc<Mutex<u32>>) {
    let counter = Arc::new(Mutex::new(0u32));
    let c = Arc::clone(&counter);
    let mgr = SoundBankManager::new(move || {
        *c.lock().unwrap() += 1;
    });
    (mgr, counter)
}

fn callback_count(counter: &Arc<Mutex<u32>>) -> u32 {
    *counter.lock().unwrap()
}

// -----------------------------------------------------------------------
// new / initial state
// -----------------------------------------------------------------------

#[test]
fn test_new_starts_empty() {
    let (mgr, _) = make_manager();
    assert!(mgr.sound_bank_list.is_empty());
    assert!(mgr.preset_list().is_empty());
    assert!(mgr.priority_order().is_empty());
}

// -----------------------------------------------------------------------
// add_sound_bank
// -----------------------------------------------------------------------

#[test]
fn test_add_sound_bank_inserts_entry() {
    let (mut mgr, counter) = make_manager();
    let bank = make_bank(vec![melodic_preset(0, 0)]);
    mgr.add_sound_bank(bank, "sf1".to_string(), 0);
    assert_eq!(mgr.sound_bank_list.len(), 1);
    assert_eq!(mgr.sound_bank_list[0].id, "sf1");
    assert_eq!(callback_count(&counter), 1);
}

#[test]
fn test_add_sound_bank_preset_list_updated() {
    let (mut mgr, _) = make_manager();
    let bank = make_bank(vec![melodic_preset(10, 0), melodic_preset(20, 0)]);
    mgr.add_sound_bank(bank, "sf1".to_string(), 0);
    let pl = mgr.preset_list();
    assert_eq!(pl.len(), 2);
}

#[test]
fn test_add_sound_bank_replaces_existing_id() {
    let (mut mgr, counter) = make_manager();
    let bank1 = make_bank(vec![melodic_preset(0, 0)]);
    let bank2 = make_bank(vec![melodic_preset(5, 0), melodic_preset(10, 0)]);
    mgr.add_sound_bank(bank1, "sf1".to_string(), 0);
    mgr.add_sound_bank(bank2, "sf1".to_string(), 0);
    // Still one entry, replaced.
    assert_eq!(mgr.sound_bank_list.len(), 1);
    // Preset list now has 2 presets from the replaced bank.
    assert_eq!(mgr.preset_list().len(), 2);
    // Callback called twice (once per add_sound_bank).
    assert_eq!(callback_count(&counter), 2);
}

#[test]
fn test_add_sound_bank_replaces_bank_offset() {
    let (mut mgr, _) = make_manager();
    let bank = make_bank(vec![melodic_preset(0, 0)]);
    mgr.add_sound_bank(bank, "sf1".to_string(), 0);
    let bank2 = make_bank(vec![melodic_preset(0, 0)]);
    mgr.add_sound_bank(bank2, "sf1".to_string(), 5);
    assert_eq!(mgr.sound_bank_list[0].bank_offset, 5);
}

// -----------------------------------------------------------------------
// bank_offset applied to bankMSB
// -----------------------------------------------------------------------

#[test]
fn test_bank_offset_applied_to_preset_bank_msb() {
    let (mut mgr, _) = make_manager();
    let bank = make_bank(vec![melodic_preset(0, 10)]);
    mgr.add_sound_bank(bank, "sf1".to_string(), 5);
    let pl = mgr.preset_list();
    // bankMSB 10 + offset 5 = 15
    assert_eq!(pl[0].named.patch.bank_msb, 15);
}

#[test]
fn test_bank_offset_clamped_to_127() {
    let (mut mgr, _) = make_manager();
    let bank = make_bank(vec![melodic_preset(0, 120)]);
    mgr.add_sound_bank(bank, "sf1".to_string(), 20);
    let pl = mgr.preset_list();
    // 120 + 20 = 140, clamped to 127
    assert_eq!(pl[0].named.patch.bank_msb, 127);
}

// -----------------------------------------------------------------------
// delete_sound_bank
// -----------------------------------------------------------------------

#[test]
fn test_delete_sound_bank_removes_entry() {
    let (mut mgr, _) = make_manager();
    let bank = make_bank(vec![melodic_preset(0, 0)]);
    mgr.add_sound_bank(bank, "sf1".to_string(), 0);
    mgr.delete_sound_bank("sf1");
    assert!(mgr.sound_bank_list.is_empty());
    assert!(mgr.preset_list().is_empty());
}

#[test]
fn test_delete_sound_bank_when_empty_warns_and_returns() {
    // Should not panic, just warn.
    let (mut mgr, _) = make_manager();
    mgr.delete_sound_bank("nonexistent"); // empty list → warns and returns
}



#[test]
fn test_delete_sound_bank_fires_callback() {
    let (mut mgr, counter) = make_manager();
    let bank = make_bank(vec![melodic_preset(0, 0)]);
    mgr.add_sound_bank(bank, "sf1".to_string(), 0);
    let before = callback_count(&counter);
    mgr.delete_sound_bank("sf1");
    assert_eq!(callback_count(&counter), before + 1);
}

// -----------------------------------------------------------------------
// priority_order / set_priority_order
// -----------------------------------------------------------------------

#[test]
fn test_priority_order_returns_ids_in_order() {
    let (mut mgr, _) = make_manager();
    mgr.add_sound_bank(make_bank(vec![]), "a".to_string(), 0);
    mgr.add_sound_bank(make_bank(vec![]), "b".to_string(), 0);
    mgr.add_sound_bank(make_bank(vec![]), "c".to_string(), 0);
    assert_eq!(mgr.priority_order(), vec!["a", "b", "c"]);
}

#[test]
fn test_set_priority_order_reorders_banks() {
    let (mut mgr, _) = make_manager();
    mgr.add_sound_bank(make_bank(vec![]), "a".to_string(), 0);
    mgr.add_sound_bank(make_bank(vec![]), "b".to_string(), 0);
    mgr.add_sound_bank(make_bank(vec![]), "c".to_string(), 0);
    mgr.set_priority_order(&["c".to_string(), "a".to_string(), "b".to_string()]);
    assert_eq!(mgr.priority_order(), vec!["c", "a", "b"]);
}

#[test]
fn test_set_priority_order_fires_callback() {
    let (mut mgr, counter) = make_manager();
    mgr.add_sound_bank(make_bank(vec![]), "a".to_string(), 0);
    let before = callback_count(&counter);
    mgr.set_priority_order(&["a".to_string()]);
    assert_eq!(callback_count(&counter), before + 1);
}

// -----------------------------------------------------------------------
// deduplication in generate_preset_list
// -----------------------------------------------------------------------

#[test]
fn test_generate_preset_list_deduplicates_by_midi_string() {
    let (mut mgr, _) = make_manager();
    // Both banks have program=0, bank_msb=0 → same MIDI string → second is deduplicated.
    let bank1 = make_bank(vec![melodic_preset(0, 0)]);
    let bank2 = make_bank(vec![melodic_preset(0, 0)]);
    mgr.add_sound_bank(bank1, "sf1".to_string(), 0);
    mgr.add_sound_bank(bank2, "sf2".to_string(), 0);
    // After dedup: only one preset should appear.
    assert_eq!(mgr.preset_list().len(), 1);
}

#[test]
fn test_generate_preset_list_first_bank_wins_on_dedup() {
    let (mut mgr, _) = make_manager();
    // Bank "sf1" has preset named "Piano" at 0:0:0, bank "sf2" has "Organ" at 0:0:0.
    let mut p1 = melodic_preset(0, 0);
    p1.name = "Piano".to_string();
    let mut p2 = melodic_preset(0, 0);
    p2.name = "Organ".to_string();
    mgr.add_sound_bank(make_bank(vec![p1]), "sf1".to_string(), 0);
    mgr.add_sound_bank(make_bank(vec![p2]), "sf2".to_string(), 0);
    // First bank wins: "Piano"
    assert_eq!(mgr.preset_list()[0].named.name, "Piano");
}

#[test]
fn test_generate_preset_list_different_presets_not_deduped() {
    let (mut mgr, _) = make_manager();
    let bank1 = make_bank(vec![melodic_preset(0, 0)]);
    let bank2 = make_bank(vec![melodic_preset(1, 0)]);
    mgr.add_sound_bank(bank1, "sf1".to_string(), 0);
    mgr.add_sound_bank(bank2, "sf2".to_string(), 0);
    assert_eq!(mgr.preset_list().len(), 2);
}

// -----------------------------------------------------------------------
// preset_list ordering (drums last)
// -----------------------------------------------------------------------

#[test]
fn test_preset_list_drums_sorted_after_melodic() {
    let (mut mgr, _) = make_manager();
    // Drums have program=0, melodic has program=0 too → drums should be after melodic.
    let bank = make_bank(vec![drum_preset(0), melodic_preset(0, 0)]);
    mgr.add_sound_bank(bank, "sf1".to_string(), 0);
    let pl = mgr.preset_list();
    assert_eq!(pl.len(), 2);
    assert!(!pl[0].named.patch.is_gm_gs_drum);
    assert!(pl[1].named.patch.is_gm_gs_drum);
}

// -----------------------------------------------------------------------
// preset_list is_any_drums
// -----------------------------------------------------------------------

#[test]
fn test_preset_list_entry_is_any_drums_true_for_gm_drum() {
    let (mut mgr, _) = make_manager();
    let bank = make_bank(vec![drum_preset(0)]);
    mgr.add_sound_bank(bank, "sf1".to_string(), 0);
    let pl = mgr.preset_list();
    assert!(pl[0].is_any_drums);
}

#[test]
fn test_preset_list_entry_is_any_drums_false_for_melodic() {
    let (mut mgr, _) = make_manager();
    let bank = make_bank(vec![melodic_preset(0, 0)]);
    mgr.add_sound_bank(bank, "sf1".to_string(), 0);
    let pl = mgr.preset_list();
    assert!(!pl[0].is_any_drums);
}

// -----------------------------------------------------------------------
// get_preset_and_bank
// -----------------------------------------------------------------------

#[test]
fn test_get_preset_and_bank_returns_none_when_empty() {
    let (mgr, _) = make_manager();
    let patch = MidiPatch {
        program: 0,
        bank_msb: 0,
        bank_lsb: 0,
        is_gm_gs_drum: false,
    };
    assert!(mgr.get_preset_and_bank(patch, SynthSystem::Gs).is_none());
}

#[test]
fn test_get_preset_and_bank_returns_preset_and_bank() {
    let (mut mgr, _) = make_manager();
    let bank = make_bank(vec![melodic_preset(10, 0)]);
    mgr.add_sound_bank(bank, "sf1".to_string(), 0);
    let patch = MidiPatch {
        program: 10,
        bank_msb: 0,
        bank_lsb: 0,
        is_gm_gs_drum: false,
    };
    let result = mgr.get_preset_and_bank(patch, SynthSystem::Gs);
    assert!(result.is_some());
    let (preset, _bank) = result.unwrap();
    assert_eq!(preset.program, 10);
}

#[test]
fn test_get_preset_and_bank_correct_source_bank() {
    let (mut mgr, _) = make_manager();
    // Bank "sf1" has program 0, bank "sf2" has program 10.
    // Requesting program 10 should return the bank from "sf2".
    let bank1 = make_bank(vec![melodic_preset(0, 0)]);
    let bank2 = make_bank(vec![melodic_preset(10, 0)]);
    mgr.add_sound_bank(bank1, "sf1".to_string(), 0);
    mgr.add_sound_bank(bank2, "sf2".to_string(), 0);

    let patch = MidiPatch {
        program: 10,
        bank_msb: 0,
        bank_lsb: 0,
        is_gm_gs_drum: false,
    };
    let (_, source_bank) = mgr.get_preset_and_bank(patch, SynthSystem::Gs).unwrap();
    // The source bank should have program 10, not program 0.
    assert!(source_bank.presets.iter().any(|p| p.program == 10));
}

#[test]
fn test_get_preset_and_bank_uses_adjusted_bank_msb_for_selection() {
    let (mut mgr, _) = make_manager();
    // Bank has preset at bank_msb=5; with offset=3 it becomes bank_msb=8.
    let bank = make_bank(vec![melodic_preset(0, 5)]);
    mgr.add_sound_bank(bank, "sf1".to_string(), 3);
    // Requesting bank_msb=8 (adjusted) should find the preset.
    let patch = MidiPatch {
        program: 0,
        bank_msb: 8,
        bank_lsb: 0,
        is_gm_gs_drum: false,
    };
    let result = mgr.get_preset_and_bank(patch, SynthSystem::Gs);
    assert!(result.is_some());
    let (preset, _) = result.unwrap();
    // The selectable preset has the adjusted bank_msb.
    assert_eq!(preset.bank_msb, 8);
}

// -----------------------------------------------------------------------
// destroy
// -----------------------------------------------------------------------

#[test]
fn test_destroy_clears_bank_list() {
    let (mut mgr, _) = make_manager();
    mgr.add_sound_bank(make_bank(vec![melodic_preset(0, 0)]), "sf1".to_string(), 0);
    mgr.destroy();
    assert!(mgr.sound_bank_list.is_empty());
}

#[test]
fn test_destroy_empties_banks_data() {
    let (mut mgr, _) = make_manager();
    let bank = make_bank(vec![melodic_preset(0, 0), melodic_preset(10, 0)]);
    mgr.add_sound_bank(bank, "sf1".to_string(), 0);
    mgr.destroy();
    // After destroy the list is empty; no accessible preset data.
    assert!(mgr.preset_list().is_empty() || mgr.sound_bank_list.is_empty());
}

// -----------------------------------------------------------------------
// multiple banks: priority order determines which preset wins dedup
// -----------------------------------------------------------------------

#[test]
fn test_priority_determines_dedup_winner() {
    let (mut mgr, _) = make_manager();
    let mut p_a = melodic_preset(0, 0);
    p_a.name = "From A".to_string();
    let mut p_b = melodic_preset(0, 0);
    p_b.name = "From B".to_string();

    mgr.add_sound_bank(make_bank(vec![p_a]), "A".to_string(), 0);
    mgr.add_sound_bank(make_bank(vec![p_b]), "B".to_string(), 0);

    // A is first → "From A" wins.
    assert_eq!(mgr.preset_list()[0].named.name, "From A");

    // Reverse priority → B is now first → "From B" wins.
    mgr.set_priority_order(&["B".to_string(), "A".to_string()]);
    assert_eq!(mgr.preset_list()[0].named.name, "From B");
}

// -----------------------------------------------------------------------
// callback fired on every mutation
// -----------------------------------------------------------------------

#[test]
fn test_callback_fired_on_every_mutating_operation() {
    let (mut mgr, counter) = make_manager();
    mgr.add_sound_bank(make_bank(vec![]), "a".to_string(), 0);
    assert_eq!(callback_count(&counter), 1);
    mgr.add_sound_bank(make_bank(vec![]), "b".to_string(), 0);
    assert_eq!(callback_count(&counter), 2);
    mgr.set_priority_order(&["b".to_string(), "a".to_string()]);
    assert_eq!(callback_count(&counter), 3);
    mgr.delete_sound_bank("a");
    assert_eq!(callback_count(&counter), 4);
}
