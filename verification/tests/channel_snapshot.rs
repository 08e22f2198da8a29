use spessasynth_rs::channel_snapshot::{apply_channel_snapshots, create_channel_snapshots, ChannelSnapshot};
use spessasynth_rs::controller_tables::CONTROLLER_TABLE_SIZE;
use spessasynth_rs::midi_channel::{create_midi_channel, ChannelEvent, ChannelVibrato, MidiChannel};
use spessasynth_rs::midi_patch::{MidiPatch, MidiPatchNamed};
use spessasynth_rs::midi_system::MIDISystem;
use spessasynth_rs::preset::{BasicPreset, BasicSoundBank};
use spessasynth_rs::sound_bank_manager::SoundBankManager;

fn empty_manager() -> SoundBankManager<impl Fn()> {
    SoundBankManager::new(|| {})
}

fn channel() -> MidiChannel {
    MidiChannel::new(0)
}

fn apply(snap: &ChannelSnapshot, ch: &mut MidiChannel) -> Vec<ChannelEvent> {
    let m = empty_manager();
    snap.apply(ch, &m, MIDISystem::Gs, true)
}

fn default_patch_named(name: &str) -> MidiPatchNamed {
    MidiPatchNamed {
        patch: MidiPatch { program: 0, bank_msb: 0, bank_lsb: 0, is_gm_gs_drum: false },
        name: name.to_string(),
    }
}

/// Vibrato of 1.5 s delay, 10 cents depth, 4 Hz rate, in the channel's units.
fn vibrato_a() -> ChannelVibrato {
    ChannelVibrato { depth_half_cents: 20, rate_eighth_hz: 32, delay_960ths: 1440 }
}

#[test]
fn test_new_stores_all_fields() {
    let patch = default_patch_named("Piano");
    let vibrato = ChannelVibrato { depth_half_cents: 4, rate_eighth_hz: 40, delay_960ths: 96 };
    let snap = ChannelSnapshot::new(
        patch.clone(),
        true,
        MIDISystem::Gm,
        vec![1i16; CONTROLLER_TABLE_SIZE],
        vec![false; CONTROLLER_TABLE_SIZE],
        true,
        vibrato,
        12,
        vec![3i8; 128],
        true,
        false,
        3,
    );
    assert_eq!(snap.patch.name, "Piano");
    assert!(snap.lock_preset);
    assert_eq!(snap.locked_system, MIDISystem::Gm);
    assert_eq!(snap.midi_controllers[0], 1);
    assert_eq!(snap.locked_controllers.len(), CONTROLLER_TABLE_SIZE);
    assert!(snap.lock_vibrato);
    assert_eq!(snap.channel_vibrato.delay_960ths, 96);
    assert_eq!(snap.channel_transpose_key_shift, 12);
    assert_eq!(snap.channel_octave_tuning[0], 3);
    assert!(snap.is_muted);
    assert!(!snap.drum_channel);
    assert_eq!(snap.channel_number, 3);
    assert!(!snap.insertion_enabled);
}

#[test]
fn test_copy_from_is_independent() {
    let snap = ChannelSnapshot::new(
        default_patch_named("Violin"),
        false,
        MIDISystem::Gs,
        vec![0i16; CONTROLLER_TABLE_SIZE],
        vec![false; CONTROLLER_TABLE_SIZE],
        false,
        ChannelVibrato { depth_half_cents: 0, rate_eighth_hz: 0, delay_960ths: 0 },
        0,
        vec![0i8; 128],
        false,
        false,
        0,
    );
    let mut copy = ChannelSnapshot::copy_from(&snap);
    copy.lock_preset = true;
    copy.channel_number = 5;
    copy.midi_controllers[0] = 99;
    copy.locked_controllers[0] = true;
    assert!(!snap.lock_preset);
    assert_eq!(snap.channel_number, 0);
    assert_eq!(snap.midi_controllers[0], 0);
    assert!(!snap.locked_controllers[0]);
}

#[test]
fn test_copy_from_preserves_values() {
    let snap = ChannelSnapshot::new(
        default_patch_named("Bass"),
        true,
        MIDISystem::Xg,
        vec![7i16; CONTROLLER_TABLE_SIZE],
        vec![true; CONTROLLER_TABLE_SIZE],
        true,
        ChannelVibrato { depth_half_cents: 6, rate_eighth_hz: 48, delay_960ths: 192 },
        -5,
        vec![1i8; 128],
        true,
        true,
        9,
    );
    let copy = ChannelSnapshot::copy_from(&snap);
    assert_eq!(copy.patch.name, snap.patch.name);
    assert_eq!(copy.lock_preset, snap.lock_preset);
    assert_eq!(copy.locked_system, snap.locked_system);
    assert_eq!(copy.midi_controllers, snap.midi_controllers);
    assert_eq!(copy.locked_controllers, snap.locked_controllers);
    assert_eq!(copy.lock_vibrato, snap.lock_vibrato);
    assert_eq!(copy.channel_vibrato, snap.channel_vibrato);
    assert_eq!(copy.channel_transpose_key_shift, snap.channel_transpose_key_shift);
    assert_eq!(copy.channel_octave_tuning, snap.channel_octave_tuning);
    assert_eq!(copy.is_muted, snap.is_muted);
    assert_eq!(copy.drum_channel, snap.drum_channel);
    assert_eq!(copy.channel_number, snap.channel_number);
}

#[test]
fn test_create_channel_number() {
    let ch = MidiChannel::new(1);
    let snap = ChannelSnapshot::create(&ch);
    assert_eq!(snap.channel_number, 1);
}

#[test]
fn test_create_preset_name_undefined_when_no_preset() {
    let ch = channel();
    assert!(ch.preset.is_none());
    let snap = ChannelSnapshot::create(&ch);
    assert_eq!(snap.patch.name, "undefined");
}

#[test]
fn create_takes_the_preset_name() {
    let mut ch = channel();
    ch.preset = Some(BasicPreset { name: "Grand".to_string(), ..BasicPreset::default() });
    assert_eq!(ChannelSnapshot::create(&ch).patch.name, "Grand");
}

#[test]
fn test_create_captures_mute_state() {
    let mut ch = channel();
    ch.is_muted = true;
    assert!(ChannelSnapshot::create(&ch).is_muted);
}

#[test]
fn test_create_captures_drum_channel() {
    let mut ch = channel();
    ch.drum_channel = true;
    assert!(ChannelSnapshot::create(&ch).drum_channel);
}

#[test]
fn test_create_captures_transpose_key_shift() {
    let mut ch = channel();
    ch.channel_transpose_key_shift = 7;
    assert_eq!(ChannelSnapshot::create(&ch).channel_transpose_key_shift, 7);
}

#[test]
fn test_create_captures_lock_preset() {
    let mut ch = channel();
    ch.lock_preset = true;
    ch.locked_system = MIDISystem::Xg;
    let snap = ChannelSnapshot::create(&ch);
    assert!(snap.lock_preset);
    assert_eq!(snap.locked_system, MIDISystem::Xg);
}

#[test]
fn test_create_captures_lock_vibrato() {
    let mut ch = channel();
    ch.lock_gs_nrpn_params = true;
    assert!(ChannelSnapshot::create(&ch).lock_vibrato);
}

#[test]
fn test_create_captures_vibrato_params() {
    let mut ch = channel();
    ch.channel_vibrato = vibrato_a();
    let snap = ChannelSnapshot::create(&ch);
    assert_eq!(snap.channel_vibrato.delay_960ths, 1440);
    assert_eq!(snap.channel_vibrato.depth_half_cents, 20);
    assert_eq!(snap.channel_vibrato.rate_eighth_hz, 32);
}

#[test]
fn test_create_captures_controllers() {
    let mut ch = channel();
    ch.midi_controllers[7] = 9000;
    assert_eq!(ChannelSnapshot::create(&ch).midi_controllers[7], 9000);
}

#[test]
fn test_create_captures_locked_controllers() {
    let mut ch = channel();
    ch.locked_controllers[10] = true;
    assert!(ChannelSnapshot::create(&ch).locked_controllers[10]);
}

#[test]
fn test_apply_restores_mute_state() {
    let mut ch = channel();
    ch.is_muted = false;
    let mut snap = ChannelSnapshot::create(&ch);
    snap.is_muted = true;
    apply(&snap, &mut ch);
    assert!(ch.is_muted);
}

#[test]
fn test_apply_restores_transpose_key_shift() {
    let mut ch = channel();
    let mut snap = ChannelSnapshot::create(&ch);
    snap.channel_transpose_key_shift = -12;
    apply(&snap, &mut ch);
    assert_eq!(ch.channel_transpose_key_shift, -12);
}

#[test]
fn test_apply_restores_lock_vibrato() {
    let mut ch = channel();
    let mut snap = ChannelSnapshot::create(&ch);
    snap.lock_vibrato = true;
    apply(&snap, &mut ch);
    assert!(ch.lock_gs_nrpn_params);
}

#[test]
fn test_apply_restores_vibrato_params() {
    let mut ch = channel();
    let mut snap = ChannelSnapshot::create(&ch);
    // 0.3 s delay, 5 cents depth, 2 Hz rate.
    snap.channel_vibrato = ChannelVibrato { depth_half_cents: 10, rate_eighth_hz: 16, delay_960ths: 288 };
    apply(&snap, &mut ch);
    assert_eq!(ch.channel_vibrato.delay_960ths, 288);
    assert_eq!(ch.channel_vibrato.depth_half_cents, 10);
    assert_eq!(ch.channel_vibrato.rate_eighth_hz, 16);
}

#[test]
fn test_apply_restores_locked_controllers() {
    let mut ch = channel();
    let mut snap = ChannelSnapshot::create(&ch);
    snap.locked_controllers[5] = true;
    apply(&snap, &mut ch);
    assert!(ch.locked_controllers[5]);
}

#[test]
fn test_apply_restores_midi_controllers() {
    let mut ch = channel();
    let mut snap = ChannelSnapshot::create(&ch);
    snap.midi_controllers[7] = 8000;
    apply(&snap, &mut ch);
    assert_eq!(ch.midi_controllers[7], 8000);
}

#[test]
fn test_apply_restores_lock_preset_and_locked_system() {
    let mut ch = channel();
    let mut snap = ChannelSnapshot::create(&ch);
    snap.lock_preset = true;
    snap.locked_system = MIDISystem::Gm2;
    apply(&snap, &mut ch);
    assert!(ch.lock_preset);
    assert_eq!(ch.locked_system, MIDISystem::Gm2);
}

#[test]
fn test_apply_restores_octave_tuning() {
    let mut ch = channel();
    let mut snap = ChannelSnapshot::create(&ch);
    snap.channel_octave_tuning[60] = 10;
    apply(&snap, &mut ch);
    assert_eq!(ch.channel_octave_tuning[60], 10);
}

#[test]
fn test_create_apply_round_trip_mute() {
    let mut ch = channel();
    ch.is_muted = true;
    let snap = ChannelSnapshot::create(&ch);
    ch.is_muted = false;
    apply(&snap, &mut ch);
    assert!(ch.is_muted);
}

#[test]
fn test_create_apply_round_trip_transpose() {
    let mut ch = channel();
    ch.channel_transpose_key_shift = 5;
    let snap = ChannelSnapshot::create(&ch);
    ch.channel_transpose_key_shift = 0;
    apply(&snap, &mut ch);
    assert_eq!(ch.channel_transpose_key_shift, 5);
}

#[test]
fn apply_selects_the_saved_program_and_reports_it() {
    let mut b = BasicSoundBank::default();
    b.presets = vec![
        BasicPreset { program: 0, ..BasicPreset::default() },
        BasicPreset { program: 40, ..BasicPreset::default() },
    ];
    let mut m = SoundBankManager::new(|| {});
    m.add_sound_bank(b, "main".to_string(), 0);
    let mut source = channel();
    source.patch.program = 40;
    source.lock_preset = true;
    let snap = ChannelSnapshot::create(&source);
    let mut target = channel();
    let events = snap.apply(&mut target, &m, MIDISystem::Gs, false);
    assert_eq!(target.patch.program, 40);
    assert_eq!(target.preset.as_ref().unwrap().program, 40);
    assert!(target.lock_preset);
    assert_eq!(
        events,
        vec![ChannelEvent::ProgramChange {
            channel: 0,
            patch: MidiPatch { program: 40, bank_msb: 0, bank_lsb: 0, is_gm_gs_drum: false }
        }]
    );
}

#[test]
fn apply_with_other_drum_flag_clears_the_bank() {
    let mut b = BasicSoundBank::default();
    b.presets = vec![BasicPreset { program: 3, ..BasicPreset::default() }];
    let mut m = SoundBankManager::new(|| {});
    m.add_sound_bank(b, "main".to_string(), 0);
    let mut source = channel();
    source.patch = MidiPatch { program: 3, bank_msb: 8, bank_lsb: 2, is_gm_gs_drum: false };
    let snap = ChannelSnapshot::create(&source);
    let mut target = channel();
    target.patch.is_gm_gs_drum = true;
    snap.apply(&mut target, &m, MIDISystem::Gs, false);
    assert_eq!(target.patch, MidiPatch { program: 3, bank_msb: 0, bank_lsb: 0, is_gm_gs_drum: false });
    let mut same = channel();
    snap.apply(&mut same, &m, MIDISystem::Gs, false);
    assert_eq!(same.patch, source.patch);
}

#[test]
fn apply_without_presets_keeps_the_program() {
    let mut source = channel();
    source.patch = MidiPatch { program: 3, bank_msb: 8, bank_lsb: 2, is_gm_gs_drum: false };
    let snap = ChannelSnapshot::create(&source);
    let mut target = channel();
    let events = apply(&snap, &mut target);
    assert!(events.is_empty());
    assert_eq!(target.patch, MidiPatch { program: 0, bank_msb: 8, bank_lsb: 2, is_gm_gs_drum: false });
}

fn channels(n: usize) -> Vec<MidiChannel> {
    let m = empty_manager();
    (0..n).map(|i| create_midi_channel(i, &m)).collect()
}

fn apply_all(snaps: &Vec<ChannelSnapshot>, chs: &mut Vec<MidiChannel>) -> Vec<ChannelEvent> {
    let m = empty_manager();
    apply_channel_snapshots(snaps, chs, &m, MIDISystem::Gs, false)
}

#[test]
fn synthesizer_snapshot_test_create_captures_channel_count() {
    assert_eq!(create_channel_snapshots(&channels(3)).len(), 3);
}

#[test]
fn synthesizer_snapshot_test_create_zero_channels_gives_empty_snapshots() {
    assert!(create_channel_snapshots(&channels(0)).is_empty());
}

#[test]
fn synthesizer_snapshot_test_apply_adds_missing_channels() {
    let snaps = create_channel_snapshots(&channels(3));
    assert_eq!(snaps.len(), 3);
    let mut chs = channels(0);
    apply_all(&snaps, &mut chs);
    assert_eq!(chs.len(), 3);
    assert_eq!(chs[2].channel, 2);
}

#[test]
fn synthesizer_snapshot_test_apply_does_not_remove_extra_channels() {
    let mut chs = channels(5);
    let snaps = create_channel_snapshots(&channels(3));
    apply_all(&snaps, &mut chs);
    assert_eq!(chs.len(), 5);
}

#[test]
fn synthesizer_snapshot_test_apply_restores_channel_mute_via_snapshot() {
    let mut chs = channels(1);
    chs[0].is_muted = true;
    let snaps = create_channel_snapshots(&chs);
    chs[0].is_muted = false;
    apply_all(&snaps, &mut chs);
    assert!(chs[0].is_muted);
}

#[test]
fn later_snapshots_of_a_channel_win_and_others_stay() {
    let mut chs = channels(3);
    chs[1].channel_transpose_key_shift = 4;
    let mut a = ChannelSnapshot::create(&chs[0]);
    a.channel_transpose_key_shift = 2;
    let mut b = ChannelSnapshot::create(&chs[0]);
    b.channel_transpose_key_shift = 9;
    apply_all(&vec![a, b], &mut chs);
    assert_eq!(chs[0].channel_transpose_key_shift, 9);
    assert_eq!(chs[1].channel_transpose_key_shift, 4);
    assert_eq!(chs.len(), 3);
}
