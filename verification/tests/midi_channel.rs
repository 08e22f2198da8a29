use spessasynth_rs::awe32::{awe32_action, AweAction};
use spessasynth_rs::data_entry::DataEntryAction;
use spessasynth_rs::effect_macros::{
    set_chorus_macro, set_delay_macro, set_reverb_macro, ChorusParams, DelayParams, ReverbParams,
};
use spessasynth_rs::midi_channel::{add_default_vibrato, ChannelEvent, ChannelVibrato, MidiChannel};
use spessasynth_rs::midi_patch::MidiPatch;
use spessasynth_rs::midi_system::MIDISystem;
use spessasynth_rs::preset::{BasicPreset, BasicSoundBank};
use spessasynth_rs::sound_bank_manager::SoundBankManager;
use spessasynth_rs::voice_management::{
    apply_voice_cap, first_free_voice, get_cached_voice_index, lowest_priority_voice, note_off_action,
    note_off, render_quantum, voice_preset, voice_priority, voices_above_cap, voices_to_release, voices_to_render,
    NoteOffAction, NoteOffEvent,
    VoiceKey,
};
use spessasynth_rs::key_modifier_manager::{KeyModifier, KeyModifierManager, KeyModifierPatch};

fn bank(presets: Vec<BasicPreset>) -> BasicSoundBank {
    let mut b = BasicSoundBank::default();
    b.presets = presets;
    b
}

fn preset(program: u8, bank_msb: u8, drum: bool) -> BasicPreset {
    BasicPreset { program, bank_msb, is_gm_gs_drum: drum, ..BasicPreset::default() }
}

fn manager() -> SoundBankManager<impl Fn()> {
    let mut m = SoundBankManager::new(|| {});
    m.add_sound_bank(bank(vec![preset(0, 0, false), preset(5, 0, false), preset(0, 0, true)]), "main".to_string(), 0);
    m
}

#[test]
fn new_channel_defaults() {
    let c = MidiChannel::new(9);
    assert!(c.drum_channel);
    assert!(!MidiChannel::new(3).drum_channel);
    assert!(MidiChannel::new(25).drum_channel);
    assert_eq!(c.midi_controllers[7], 12800);
    assert_eq!(c.generator_overrides.len(), 63);
    assert!(c.poly_mode);
}

#[test]
fn program_change_selects_preset_and_reports() {
    let m = manager();
    let mut c = MidiChannel::new(0);
    let ev = c.program_change(5, &m, MIDISystem::Gs, true);
    assert_eq!(c.patch.program, 5);
    assert_eq!(c.preset.as_ref().unwrap().program, 5);
    assert_eq!(c.preset_bank_idx, Some(0));
    assert_eq!(
        ev,
        vec![
            ChannelEvent::ProgramChange { channel: 0, patch: MidiPatch { program: 5, bank_msb: 0, bank_lsb: 0, is_gm_gs_drum: false } },
            ChannelEvent::PropertyChange { channel: 0 },
        ]
    );
    let mut locked = MidiChannel::new(1);
    locked.lock_preset = true;
    assert!(locked.program_change(5, &m, MIDISystem::Gs, true).is_empty());
    assert_eq!(locked.patch.program, 0);
}

#[test]
fn reset_preset_sets_drums_on_percussion_channel() {
    let m = manager();
    let mut c = MidiChannel::new(9);
    c.drum_channel = false;
    let ev = c.reset_preset(&m, MIDISystem::Gs, false);
    assert!(c.patch.is_gm_gs_drum);
    assert!(c.drum_channel);
    assert!(ev.contains(&ChannelEvent::DrumChange { channel: 9, is_drum: true }));
    let mut x = MidiChannel::new(9);
    x.reset_preset(&m, MIDISystem::Xg, false);
    assert_eq!(x.patch.bank_msb, 127);
    assert!(!x.patch.is_gm_gs_drum);
}

#[test]
fn reset_parameters_restores_parameter_numbers() {
    let mut c = MidiChannel::new(0);
    c.data_entry_state = 5;
    c.midi_controllers[101] = 0;
    c.generator_offsets[3] = 7;
    c.generator_offsets_enabled = true;
    c.reset_parameters();
    assert_eq!(c.data_entry_state, 0);
    assert_eq!(c.midi_controllers[98], 16256);
    assert_eq!(c.midi_controllers[101], 16256);
    assert!(c.generator_offsets.iter().all(|v| *v == 0));
    assert!(!c.generator_offsets_enabled);
    assert!(c.generator_overrides.iter().all(|v| *v == i16::MAX));
}

#[test]
fn default_vibrato_only_when_off() {
    let mut c = MidiChannel::new(0);
    add_default_vibrato(&mut c);
    assert_eq!(c.channel_vibrato, ChannelVibrato { depth_half_cents: 100, rate_eighth_hz: 64, delay_960ths: 576 });
    c.channel_vibrato.rate_eighth_hz = 3;
    add_default_vibrato(&mut c);
    assert_eq!(c.channel_vibrato.rate_eighth_hz, 3);
}

#[test]
fn nrpn_vibrato_and_part_parameters() {
    let mut c = MidiChannel::new(0);
    // NRPN 01 08 (vibrato rate).
    c.midi_controllers[99] = 1 << 7;
    c.midi_controllers[98] = 8 << 7;
    c.data_entry_state = 4;
    assert_eq!(c.data_entry_coarse(80, 0), DataEntryAction::NoChange);
    assert_eq!(c.channel_vibrato, ChannelVibrato { depth_half_cents: 100, rate_eighth_hz: 80, delay_960ths: 576 });
    assert_eq!(c.midi_controllers[6], 80 << 7);
    // Delay: 30 / 192 s = 150 / 960 s.
    assert_eq!(c.handle_nrpn_part_parameter(0x0a, 30), DataEntryAction::NoChange);
    assert_eq!(c.channel_vibrato.delay_960ths, 150);
    // 64 changes nothing.
    assert_eq!(c.handle_nrpn_part_parameter(0x09, 64), DataEntryAction::NoChange);
    assert_eq!(c.channel_vibrato.depth_half_cents, 100);
    assert_eq!(c.handle_nrpn_part_parameter(0x20, 90), DataEntryAction::ControllerChange { controller: 74, value: 90 });
    assert_eq!(
        c.handle_nrpn_part_parameter(0x30, 90),
        DataEntryAction::UnrecognizedNrpn { msb: 1, lsb: 0x30, value: 90 }
    );
}

#[test]
fn rpn_pitch_wheel_range_and_tuning() {
    let mut c = MidiChannel::new(0);
    c.midi_controllers[101] = 0;
    c.midi_controllers[100] = 0;
    c.data_entry_state = 1;
    assert_eq!(c.data_entry_coarse(12, 0), DataEntryAction::NoChange);
    assert_eq!(c.midi_controllers[144], 12 << 7);
    assert_eq!(c.data_entry_fine(64), DataEntryAction::NoChange);
    assert_eq!(c.midi_controllers[144], (12 << 7) | 64);
    c.midi_controllers[100] = 2 << 7;
    assert_eq!(c.data_entry_coarse(62, 0), DataEntryAction::CoarseTuning { semitones: -2 });
    c.midi_controllers[100] = 1 << 7;
    assert_eq!(c.data_entry_coarse(70, 0), DataEntryAction::FineTuning { cents: 6 });
    assert_eq!(c.data_entry_fine(5), DataEntryAction::FineTuningLsb { data_lsb: 5 });
    c.midi_controllers[100] = 5 << 7;
    assert_eq!(c.data_entry_coarse(2, 0), DataEntryAction::ModulationDepth { cents: 200 });
    c.midi_controllers[101] = 0x7f << 7;
    c.midi_controllers[100] = 0x7f << 7;
    assert_eq!(c.data_entry_coarse(0, 0), DataEntryAction::NoChange);
    assert_eq!(c.data_entry_state, 0);
}

#[test]
fn sf2_and_awe32_nrpns() {
    let mut c = MidiChannel::new(0);
    c.data_entry_state = 4;
    c.midi_controllers[99] = 120 << 7;
    c.midi_controllers[98] = 10 << 7;
    c.midi_controllers[38] = 5 << 7;
    assert_eq!(c.data_entry_coarse(65, 48), DataEntryAction::GeneratorOffset { generator: 48, offset: 133 });
    c.midi_controllers[99] = 0x7f << 7;
    c.midi_controllers[98] = 21 << 7;
    assert_eq!(c.data_entry_coarse(64, 0), DataEntryAction::NoChange);
    assert_eq!(
        c.data_entry_fine(10),
        DataEntryAction::Awe32(AweAction::Override { generator: 8, value: 4925, realtime: true })
    );
}

#[test]
fn awe32_values() {
    assert_eq!(awe32_action(27, 0, 0), AweAction::Invalid { awe_gen: 27 });
    assert_eq!(awe32_action(0, 100, 64), AweAction::OverrideTimeMs { generator: 21, ms: 400 });
    assert_eq!(awe32_action(1, 100, 64), AweAction::OverrideLfoFrequency { generator: 22, data_lsb: 100 });
    assert_eq!(awe32_action(8, 3, 0), AweAction::Override { generator: 29, value: 22, realtime: false });
    assert_eq!(awe32_action(17, 0, 63), AweAction::Override { generator: 5, value: -1190, realtime: true });
    assert_eq!(awe32_action(23, 10, 64), AweAction::Override { generator: 10, value: 562, realtime: true });
    assert_eq!(awe32_action(25, 51, 64), AweAction::Override { generator: 15, value: 200, realtime: false });
    assert_eq!(awe32_action(22, 127, 0), AweAction::Override { generator: 9, value: 215, realtime: true });
}

#[test]
fn effect_macros_tables() {
    let mut r = ReverbParams { level: 1, pre_lowpass: 1, character: 1, time: 1, delay_feedback: 1, pre_delay_time: 1 };
    assert_eq!(set_reverb_macro(&mut r, 4, false), Some(4));
    assert_eq!(r, ReverbParams { level: 64, pre_lowpass: 0, character: 4, time: 64, delay_feedback: 0, pre_delay_time: 0 });
    let before = r;
    assert_eq!(set_reverb_macro(&mut r, 1, true), None);
    assert_eq!(r, before);
    assert_eq!(set_reverb_macro(&mut r, 9, false), None);
    assert_eq!(r.character, 9);

    let mut c = ChorusParams { level: 0, pre_lowpass: 0, depth: 0, delay: 0, send_level_to_delay: 0, send_level_to_reverb: 0, rate: 0, feedback: 0 };
    assert_eq!(set_chorus_macro(&mut c, 2, false), Some(2));
    assert_eq!((c.feedback, c.delay, c.rate, c.depth, c.level), (8, 80, 3, 19, 64));

    let mut d = DelayParams { level: 0, pre_lowpass: 0, time_center: 0, time_ratio_right: 0, time_ratio_left: 0, level_center: 0, level_left: 0, level_right: 0, feedback: 0, send_level_to_reverb: 0 };
    assert_eq!(set_delay_macro(&mut d, 8, false), Some(8));
    assert_eq!((d.time_center, d.level_left, d.feedback, d.send_level_to_reverb), (109, 114, 61, 36));
    assert_eq!(set_delay_macro(&mut d, 10, false), None);
    assert_eq!((d.level_center, d.level_left, d.send_level_to_reverb), (127, 0, 0));
}

#[test]
fn cached_voice_index_formula() {
    let p = MidiPatch { program: 1, bank_msb: 2, bank_lsb: 3, is_gm_gs_drum: false };
    assert_eq!(get_cached_voice_index(&p, 4, 5), 2 + 3 * 128 + 16384 + 4 * 2097152 + 5 * 268435456);
    let d = MidiPatch { program: 1, bank_msb: 2, bank_lsb: 3, is_gm_gs_drum: true };
    assert_eq!(get_cached_voice_index(&d, 0, 0), 128 + 16384);
}

#[test]
fn voice_choice_helpers() {
    assert_eq!(first_free_voice(&[true, false, false], 3), Some(1));
    assert_eq!(first_free_voice(&[true, true, false], 2), None);
    assert_eq!(lowest_priority_voice(&[3, -1, -1, -9], 3), 1);
    assert_eq!(lowest_priority_voice(&[3], 0), 0);
    assert_eq!(voice_priority(true, true, 100, 2, 1), 5 - 10 + 4 - 2 - 1);
    assert_eq!(apply_voice_cap(2_000_000, 10), (1_000_000, 999_990));
    assert_eq!(apply_voice_cap(8, 10), (8, 0));
}

#[test]
fn full_controller_reset_requests() {
    let mut c = MidiChannel::new(0);
    c.midi_controllers[7] = 50 << 7; // volume: reset through a control change
    c.midi_controllers[1] = 3 << 7; // modulation wheel
    c.midi_controllers[84] = 9 << 7; // portamento control: handled separately
    c.midi_controllers[101] = 0; // parameter number: reset directly
    c.locked_controllers[1] = true;
    c.channel_vibrato.rate_eighth_hz = 9;
    c.random_pan = true;
    c.sys_ex_modulators.set_modulator(1, 6, 128, false, false);
    let r = c.reset_controllers(MIDISystem::Xg);
    assert_eq!(r, vec![(7, 100), (84, 60)]);
    assert_eq!(c.midi_controllers[101], 16256);
    assert_eq!(c.channel_vibrato.rate_eighth_hz, 0);
    assert!(!c.random_pan);
    assert!(c.sys_ex_modulators.modulator_list.is_empty());
    c.locked_controllers[84] = true;
    assert_eq!(c.reset_controllers(MIDISystem::Gs), vec![(7, 100)]);
}

#[test]
fn rp15_controller_reset_requests() {
    let mut c = MidiChannel::new(0);
    c.midi_controllers[7] = 50 << 7; // volume is not reset by RP-15
    c.midi_controllers[1] = 3 << 7;
    c.midi_controllers[64] = 127 << 7;
    c.generator_overrides_enabled = true;
    let r = c.reset_controllers_rp15();
    assert_eq!(r, vec![(1, 0), (64, 0)]);
    assert!(!c.generator_overrides_enabled);
}

#[test]
fn note_off_decisions() {
    assert_eq!(note_off_action(200, 0, 0, false, false, 0), NoteOffAction::Ignore);
    assert_eq!(note_off_action(60, 2, -1, true, false, 0), NoteOffAction::Kill { real_key: 61 });
    assert_eq!(note_off_action(60, 0, 0, true, true, 9000), NoteOffAction::Release { real_key: 60, hold: true });
    assert_eq!(note_off_action(60, 0, 0, false, false, 100), NoteOffAction::Release { real_key: 60, hold: false });
    let v = |channel: usize, active: bool, real_key: u8, in_release: bool| VoiceKey { channel, active, real_key, in_release };
    let voices = [v(0, true, 60, false), v(1, true, 60, false), v(0, true, 60, true), v(0, false, 60, false), v(0, true, 60, false), v(0, true, 60, false)];
    assert_eq!(voices_to_release(&voices, 0, 60, 2), vec![0, 4]);
    assert_eq!(voices_to_release(&voices, 0, 60, 9), vec![0, 4, 5]);
    assert_eq!(voices_to_release(&voices, 0, 60, 0), Vec::<usize>::new());
}

#[test]
fn octave_tuning_repeats_the_pitch_classes() {
    let mut c = MidiChannel::new(2);
    let tuning: Vec<i8> = vec![0, 1, 2, 3, 4, 5, 6, 7, 8, 9, 10, -64];
    c.set_octave_tuning(&tuning);
    assert_eq!(c.channel_octave_tuning.len(), 128);
    assert_eq!(c.channel_octave_tuning[0], 0);
    assert_eq!(c.channel_octave_tuning[13], 1);
    assert_eq!(c.channel_octave_tuning[71], -64);
    assert_eq!(c.channel_octave_tuning[127], 7);
}

#[test]
fn voices_come_from_the_key_override_or_the_channel_preset() {
    let m = manager();
    let mut c = MidiChannel::new(0);
    let mut keys = KeyModifierManager::new();
    assert!(voice_preset(&c, 0, 60, &keys, &m, MIDISystem::Gs).is_none());
    c.program_change(5, &m, MIDISystem::Gs, false);
    let (p, b) = voice_preset(&c, 0, 60, &keys, &m, MIDISystem::Gs).unwrap();
    assert_eq!((p.program, b), (5, 0));
    keys.add_mapping(
        0,
        60,
        KeyModifier {
            velocity: -1,
            patch: KeyModifierPatch { bank_lsb: 0, bank_msb: 0, program: 0, is_gm_gs_drum: true },
        },
    );
    let (p, _) = voice_preset(&c, 0, 60, &keys, &m, MIDISystem::Gs).unwrap();
    assert_eq!(p.program, 0);
    assert!(p.is_gm_gs_drum);
    // Other keys keep the channel's preset.
    assert_eq!(voice_preset(&c, 0, 61, &keys, &m, MIDISystem::Gs).unwrap().0.program, 5);
    // Without presets an override finds nothing.
    let empty = SoundBankManager::new(|| {});
    assert!(voice_preset(&c, 0, 60, &keys, &empty, MIDISystem::Gs).is_none());
}

#[test]
fn program_change_without_presets_changes_nothing() {
    let empty = SoundBankManager::new(|| {});
    let mut c = MidiChannel::new(0);
    let ev = c.program_change(7, &empty, MIDISystem::Gs, true);
    assert!(ev.is_empty());
    assert_eq!(c.patch.program, 0);
    assert!(c.preset.is_none());
}

#[test]
fn reset_preset_sets_program_zero() {
    let m = manager();
    let mut c = MidiChannel::new(2);
    c.program_change(5, &m, MIDISystem::Gs, false);
    assert_eq!(c.patch.program, 5);
    c.reset_preset(&m, MIDISystem::Gs, false);
    assert_eq!(c.patch.program, 0);
    assert_eq!(c.preset.as_ref().unwrap().program, 0);
    let empty = SoundBankManager::new(|| {});
    let mut d = MidiChannel::new(3);
    d.patch.program = 9;
    d.reset_preset(&empty, MIDISystem::Gs, false);
    assert_eq!(d.patch.program, 0);
}

#[test]
fn xg_melodic_part_on_percussion_channel() {
    let m = manager();
    let mut c = MidiChannel::new(9);
    c.reset_preset(&m, MIDISystem::Xg, false);
    assert_eq!(c.patch.bank_msb, 127);
    c.set_drums(false, &m, MIDISystem::Xg, false);
    assert_eq!(c.patch.bank_msb, 0);
    assert_eq!(c.patch.bank_lsb, 0);
    assert!(!c.drum_channel);
}

fn vk(channel: usize, real_key: u8, in_release: bool) -> VoiceKey {
    VoiceKey { channel, active: true, real_key, in_release }
}

#[test]
fn note_off_reports_the_event_and_picks_the_voices() {
    let mut c = MidiChannel::new(2);
    c.channel_transpose_key_shift = 2;
    let voices = vec![vk(2, 62, false), vk(1, 62, false), vk(2, 62, true), vk(2, 62, false), vk(2, 61, false)];
    let plan = note_off(&c, 60, 0, false, &voices, 5);
    assert_eq!(plan.event, Some(NoteOffEvent { midi_note: 60, channel: 2 }));
    assert_eq!(plan.action, NoteOffAction::Release { real_key: 62, hold: false });
    assert_eq!(plan.voices, vec![0, 3]);
    // Sustain pedal down: the same voices are held; the channel's voice count limits them.
    c.midi_controllers[64] = 127 << 7;
    let plan = note_off(&c, 60, 0, false, &voices, 1);
    assert_eq!(plan.action, NoteOffAction::Release { real_key: 62, hold: true });
    assert_eq!(plan.voices, vec![0]);
    // Black MIDI mode kills the key; a note above 127 is ignored without an event.
    let plan = note_off(&c, 60, 0, true, &voices, 5);
    assert_eq!(plan.action, NoteOffAction::Kill { real_key: 62 });
    assert!(plan.voices.is_empty());
    assert_eq!(plan.event, Some(NoteOffEvent { midi_note: 60, channel: 2 }));
    assert_eq!(note_off(&c, 200, 0, false, &voices, 5).event, None);
}

#[test]
fn voices_above_a_lowered_cap() {
    assert_eq!(voices_above_cap(3, 6), vec![3, 4, 5]);
    assert!(voices_above_cap(6, 3).is_empty());
}

#[test]
fn render_quantum_and_rendered_voices() {
    assert_eq!(render_quantum(64, 128, 0), 64);
    assert_eq!(render_quantum(0, 128, 32), 96);
    assert_eq!(render_quantum(0, 16, 32), 0);
    // Voice 1 is inactive, voice 2's channel is muted, voice 4 is above the cap.
    let active = [true, false, true, true, true];
    let channel = [0usize, 0, 1, 0, 0];
    let muted = [false, true];
    assert_eq!(voices_to_render(4, &active, &channel, &muted), vec![0, 3]);
}
