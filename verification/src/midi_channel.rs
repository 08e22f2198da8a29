//! The integer state of a MIDI channel and the rules that change it: bank select,
//! drum mode, program changes, parameter resets and the custom vibrato.
use vstd::prelude::*;
use crate::compute_modulator::ChannelContext;
use crate::controller_tables::CONTROLLER_TABLE_SIZE;
use crate::custom_controllers::DATA_ENTRY_IDLE;
use crate::dynamic_modulator_system::DynamicModulatorSystem;
use crate::generator_types::GENERATORS_AMOUNT;
use crate::midi_controllers as cc;
use crate::midi_patch::MidiPatch;
use crate::midi_system::{spec_is_system_xg, BankSelectHacks, MIDISystem, GM2_DEFAULT_BANK};
use crate::preset::{preset_patch, spec_bank_is_xg, spec_preset_is_any_drums, spec_select_preset, BasicPreset};
use crate::sound_bank_manager::SoundBankManager;
use crate::synth_constants::{DEFAULT_PERCUSSION, GENERATOR_OVERRIDE_NO_CHANGE_VALUE};

verus! {

/// The channel's own vibrato, held exactly: depth in half cents, rate in eighths of
/// a hertz and delay in 1/960 s. All zero means no vibrato.
#[derive(Clone, Copy, Debug, PartialEq, Eq, Structural)]
pub struct ChannelVibrato {
    pub depth_half_cents: u16,
    pub rate_eighth_hz: u16,
    pub delay_960ths: u16,
}

/// Whether the vibrato is off (all three values zero).
pub open spec fn vibrato_is_off(v: ChannelVibrato) -> bool {
    v.depth_half_cents == 0 && v.rate_eighth_hz == 0 && v.delay_960ths == 0
}

/// The default vibrato that an NRPN vibrato change starts from: 50 cents deep, 8 Hz,
/// 0.6 s delay.
pub open spec fn spec_default_vibrato() -> ChannelVibrato {
    ChannelVibrato { depth_half_cents: 100, rate_eighth_hz: 64, delay_960ths: 576 }
}

/// What a channel reports to the host.
#[derive(Clone, Copy, Debug, PartialEq, Eq, Structural)]
pub enum ChannelEvent {
    /// The channel became a drum channel (its transposition is then cleared) or a
    /// melodic one.
    DrumChange { channel: usize, is_drum: bool },
    /// The channel now plays the preset with this patch.
    ProgramChange { channel: usize, patch: MidiPatch },
    /// The channel's properties changed.
    PropertyChange { channel: usize },
}

/// The integer state of a MIDI channel.
pub struct MidiChannel {
    /// The channel number.
    pub channel: usize,
    /// The patch the channel asks for.
    pub patch: MidiPatch,
    /// The preset it plays, once one was selected.
    pub preset: Option<BasicPreset>,
    /// The bank of that preset in the sound bank stack.
    pub preset_bank_idx: Option<usize>,
    pub drum_channel: bool,
    /// When set, the preset and bank are not changed by messages.
    pub lock_preset: bool,
    /// The MIDI system that was active when the preset was locked.
    pub locked_system: MIDISystem,
    /// Key shift of the channel, in semitones.
    pub channel_transpose_key_shift: i16,
    pub is_muted: bool,
    /// When set, GS NRPN part parameters are ignored.
    pub lock_gs_nrpn_params: bool,
    /// The extended 14-bit controller table.
    pub midi_controllers: Vec<i16>,
    /// Which controllers are locked.
    pub locked_controllers: Vec<bool>,
    /// Which parameter number the next data entry edits.
    pub data_entry_state: u8,
    /// Per-generator overrides (`GENERATOR_OVERRIDE_NO_CHANGE_VALUE` for none).
    pub generator_overrides: Vec<i16>,
    pub generator_overrides_enabled: bool,
    /// Per-generator offsets.
    pub generator_offsets: Vec<i16>,
    pub generator_offsets_enabled: bool,
    pub channel_vibrato: ChannelVibrato,
    pub random_pan: bool,
    pub poly_mode: bool,
    pub per_note_pitch: bool,
    /// Per-note pitch wheels (14-bit, centred at 8192), one per key.
    pub pitch_wheels: Vec<i16>,
    /// Octave scale tuning in cents, one entry per key.
    pub channel_octave_tuning: Vec<i8>,
    pub sys_ex_modulators: DynamicModulatorSystem,
    /// Whether the channel feeds the insertion effect.
    pub insertion_enabled: bool,
}

/// The table sizes a channel keeps.
pub open spec fn channel_wf(c: MidiChannel) -> bool {
    &&& c.midi_controllers@.len() == CONTROLLER_TABLE_SIZE
    &&& c.locked_controllers@.len() == CONTROLLER_TABLE_SIZE
    &&& c.generator_overrides@.len() == GENERATORS_AMOUNT
    &&& c.generator_offsets@.len() == GENERATORS_AMOUNT
    &&& c.channel_octave_tuning@.len() == 128
}

/// Whether a channel number is the default percussion channel of its port.
pub open spec fn is_default_percussion(channel: usize) -> bool {
    channel % 16 == DEFAULT_PERCUSSION
}

/// The preset a program change selects: its index in the manager's preset table.
pub open spec fn selected_preset_index<F: Fn()>(mgr: SoundBankManager<F>, patch: MidiPatch, system: MIDISystem) -> int {
    spec_select_preset(mgr.table().map_values(|e: (BasicPreset, usize)| e.0), mgr.table_xg(), patch, system)
}

/// The channel after its bank MSB is set to `v` (nothing changes while the preset is
/// locked).
pub open spec fn spec_with_bank_msb(c: MidiChannel, v: u8) -> MidiChannel {
    if c.lock_preset { c } else { MidiChannel { patch: MidiPatch { bank_msb: v, ..c.patch }, ..c } }
}

/// The channel after its bank LSB is set to `v` (nothing changes while the preset is
/// locked).
pub open spec fn spec_with_bank_lsb(c: MidiChannel, v: u8) -> MidiChannel {
    if c.lock_preset { c } else { MidiChannel { patch: MidiPatch { bank_lsb: v, ..c.patch }, ..c } }
}

/// The channel after its GM/GS drum flag is set: a change also clears both bank
/// bytes unless the preset is locked.
pub open spec fn spec_with_gs_drums(c: MidiChannel, drums: bool) -> MidiChannel {
    if drums == c.patch.is_gm_gs_drum {
        c
    } else {
        let c1 = spec_with_bank_msb(spec_with_bank_lsb(c, 0), 0);
        MidiChannel { patch: MidiPatch { is_gm_gs_drum: drums, ..c1.patch }, ..c1 }
    }
}

/// Whether marking the channel as a drum channel (or a melodic one) changes it.
pub open spec fn drum_flag_changes(c: MidiChannel, is_drum: bool) -> bool {
    !c.lock_preset && c.preset is Some && c.drum_channel != is_drum
}

/// The channel after it is marked as a drum channel or a melodic one.
pub open spec fn spec_with_drum_flag(c: MidiChannel, is_drum: bool) -> MidiChannel {
    if drum_flag_changes(c, is_drum) { MidiChannel { drum_channel: is_drum, ..c } } else { c }
}

/// The event of marking the channel as a drum channel or a melodic one, if any.
pub open spec fn drum_flag_events(c: MidiChannel, is_drum: bool) -> Seq<ChannelEvent> {
    if drum_flag_changes(c, is_drum) {
        seq![ChannelEvent::DrumChange { channel: c.channel, is_drum }]
    } else {
        Seq::empty()
    }
}

/// The channel after a program change to `program` in `system`: nothing changes
/// while the preset is locked or when the manager has no preset to select;
/// otherwise the patch takes the program and the channel plays the selected preset,
/// with the drum flag telling whether it is a drum kit of any kind.
#[verifier::opaque]
pub open spec fn spec_program_change<F: Fn()>(
    c: MidiChannel,
    program: u8,
    mgr: SoundBankManager<F>,
    system: MIDISystem,
) -> MidiChannel {
    if c.lock_preset {
        c
    } else {
        let patch = MidiPatch { program, ..c.patch };
        if mgr.banks().len() == 0 || mgr.table().len() == 0 {
            c
        } else {
            let i = selected_preset_index(mgr, patch, system);
            let p = mgr.table()[i].0;
            let b = mgr.table()[i].1;
            MidiChannel {
                patch,
                preset: Some(p),
                preset_bank_idx: Some(b),
                drum_channel: spec_preset_is_any_drums(p, spec_bank_is_xg(mgr.banks()[b as int].sound_bank.presets@)),
                ..c
            }
        }
    }
}

/// The events of a program change: none while the preset is locked or without
/// presets; otherwise a drum change when the selected preset's kind differs from
/// the drum flag, the program change with the preset's own patch, and a property
/// change when events are enabled.
#[verifier::opaque]
pub open spec fn spec_program_change_events<F: Fn()>(
    c: MidiChannel,
    program: u8,
    mgr: SoundBankManager<F>,
    system: MIDISystem,
    enable_event_system: bool,
) -> Seq<ChannelEvent> {
    if c.lock_preset || mgr.banks().len() == 0 || mgr.table().len() == 0 {
        Seq::empty()
    } else {
        let after = spec_program_change(c, program, mgr, system);
        let p = after.preset->0;
        let drum_event: Seq<ChannelEvent> = if after.drum_channel != c.drum_channel {
            seq![ChannelEvent::DrumChange { channel: c.channel, is_drum: after.drum_channel }]
        } else {
            Seq::empty()
        };
        let property_event: Seq<ChannelEvent> = if enable_event_system {
            seq![ChannelEvent::PropertyChange { channel: c.channel }]
        } else {
            Seq::empty()
        };
        drum_event + seq![ChannelEvent::ProgramChange { channel: c.channel, patch: preset_patch(p) }] + property_event
    }
}

/// The channel after its bank bytes (XG and GM2) or GM/GS drum flag (GM and GS) are
/// set for a drum channel or a melodic one.
#[verifier::opaque]
pub open spec fn spec_drum_patch(c: MidiChannel, is_drum: bool, system: MIDISystem) -> MidiChannel {
    if spec_is_system_xg(system) {
        if is_drum {
            let msb: u8 = if system == MIDISystem::Xg { 127 } else { 120 };
            spec_with_bank_lsb(spec_with_bank_msb(c, msb), 0)
        } else {
            spec_with_bank_lsb(spec_with_bank_msb(c, 0), 0)
        }
    } else {
        spec_with_gs_drums(c, is_drum)
    }
}

/// The channel before the program is selected again in `set_drums`.
pub open spec fn spec_drums_before_program(c: MidiChannel, is_drum: bool, system: MIDISystem) -> MidiChannel {
    spec_with_drum_flag(spec_drum_patch(c, is_drum, system), is_drum)
}

/// The channel after `set_drums`.
pub open spec fn spec_set_drums<F: Fn()>(
    c: MidiChannel,
    is_drum: bool,
    mgr: SoundBankManager<F>,
    system: MIDISystem,
) -> MidiChannel {
    let mid = spec_drums_before_program(c, is_drum, system);
    spec_program_change(mid, mid.patch.program, mgr, system)
}

/// The events of `set_drums`.
pub open spec fn spec_set_drums_events<F: Fn()>(
    c: MidiChannel,
    is_drum: bool,
    mgr: SoundBankManager<F>,
    system: MIDISystem,
    enable_event_system: bool,
) -> Seq<ChannelEvent> {
    let mid = spec_drums_before_program(c, is_drum, system);
    drum_flag_events(spec_drum_patch(c, is_drum, system), is_drum)
        + spec_program_change_events(mid, mid.patch.program, mgr, system, enable_event_system)
}

/// The channel before `reset_preset` makes it a drum or melodic channel: the
/// system's default bank MSB, LSB 0, GM/GS drums off and program 0 (nothing changes
/// while the preset is locked).
#[verifier::opaque]
pub open spec fn spec_default_patch_banks(c: MidiChannel, system: MIDISystem) -> MidiChannel {
    let msb: u8 = if system == MIDISystem::Gm2 { GM2_DEFAULT_BANK } else { 0 };
    let c1 = spec_with_gs_drums(spec_with_bank_lsb(spec_with_bank_msb(c, msb), 0), false);
    if c1.lock_preset { c1 } else { MidiChannel { patch: MidiPatch { program: 0, ..c1.patch }, ..c1 } }
}

/// What `program_change` establishes, field by field, gives the channel of
/// [`spec_program_change`] and the events of [`spec_program_change_events`].
proof fn lemma_program_change_result<F: Fn()>(
    before: MidiChannel,
    after: MidiChannel,
    r: Seq<ChannelEvent>,
    program: u8,
    mgr: SoundBankManager<F>,
    system: MIDISystem,
    enable_event_system: bool,
)
    requires
        before.lock_preset ==> after == before && r.len() == 0,
        !before.lock_preset ==> {
            let patch = MidiPatch { program, ..before.patch };
            &&& (mgr.banks().len() == 0 || mgr.table().len() == 0) ==> after == before && r.len() == 0
            &&& (mgr.banks().len() > 0 && mgr.table().len() > 0) ==> {
                let i = selected_preset_index(mgr, patch, system);
                let p = mgr.table()[i].0;
                let b = mgr.table()[i].1;
                let drums = spec_preset_is_any_drums(p, spec_bank_is_xg(mgr.banks()[b as int].sound_bank.presets@));
                let drum_event: Seq<ChannelEvent> = if drums != before.drum_channel {
                    seq![ChannelEvent::DrumChange { channel: before.channel, is_drum: drums }]
                } else {
                    Seq::empty()
                };
                let property_event: Seq<ChannelEvent> = if enable_event_system {
                    seq![ChannelEvent::PropertyChange { channel: before.channel }]
                } else {
                    Seq::empty()
                };
                &&& after == (MidiChannel {
                    patch,
                    preset: after.preset,
                    preset_bank_idx: after.preset_bank_idx,
                    drum_channel: after.drum_channel,
                    ..before
                })
                &&& after.preset == Some(p)
                &&& after.preset_bank_idx == Some(b)
                &&& after.drum_channel == drums
                &&& r == drum_event + seq![ChannelEvent::ProgramChange { channel: before.channel, patch: preset_patch(p) }]
                    + property_event
            }
        },
    ensures
        after == spec_program_change(before, program, mgr, system),
        r == spec_program_change_events(before, program, mgr, system, enable_event_system),
{
    reveal(spec_program_change);
    reveal(spec_program_change_events);
}

fn filled_i16(n: usize, v: i16) -> (r: Vec<i16>)
    ensures
        r@ == Seq::new(n as nat, |i: int| v),
{
    let mut out: Vec<i16> = Vec::new();
    let mut i: usize = 0;
    while i < n
        invariant
            i <= n,
            out@ == Seq::new(i as nat, |j: int| v),
        decreases n - i,
    {
        out.push(v);
        i = i + 1;
        proof {
            assert(out@ =~= Seq::new(i as nat, |j: int| v));
        }
    }
    out
}

/// Sets the vibrato to its default when it is off; otherwise leaves it.
pub fn add_default_vibrato(chan: &mut MidiChannel)
    ensures
        *final(chan) == (MidiChannel {
            channel_vibrato: if vibrato_is_off(old(chan).channel_vibrato) {
                spec_default_vibrato()
            } else {
                old(chan).channel_vibrato
            },
            ..*old(chan)
        }),
{
    if chan.channel_vibrato.delay_960ths == 0 && chan.channel_vibrato.rate_eighth_hz == 0
        && chan.channel_vibrato.depth_half_cents == 0
    {
        chan.channel_vibrato = ChannelVibrato { depth_half_cents: 100, rate_eighth_hz: 64, delay_960ths: 576 };
    }
}

impl MidiChannel {
    /// A fresh channel: every controller at its default, no overrides or offsets,
    /// no vibrato, poly mode, and a drum channel when it is the default percussion
    /// channel of its port.
    pub fn new(channel: usize) -> (r: Self)
        ensures
            channel_wf(r),
            r.channel == channel,
            r.drum_channel == is_default_percussion(channel),
            r.preset is None,
            !r.lock_preset,
            r.data_entry_state == DATA_ENTRY_IDLE,
            r.poly_mode,
            r.midi_controllers@ == Seq::new(
                CONTROLLER_TABLE_SIZE as nat,
                |i: int| crate::controller_tables::default_controller_value(i),
            ),
    {
        let mut locked: Vec<bool> = Vec::new();
        let mut i: usize = 0;
        while i < CONTROLLER_TABLE_SIZE
            invariant
                i <= CONTROLLER_TABLE_SIZE,
                locked@.len() == i,
            decreases CONTROLLER_TABLE_SIZE - i,
        {
            locked.push(false);
            i = i + 1;
        }
        let mut tuning: Vec<i8> = Vec::new();
        let mut k: usize = 0;
        while k < 128
            invariant
                k <= 128,
                tuning@.len() == k,
            decreases 128 - k,
        {
            tuning.push(0);
            k = k + 1;
        }
        let controllers = crate::controller_tables::build_default_midi_controller_values();
        proof {
            assert(controllers@ =~= Seq::new(
                CONTROLLER_TABLE_SIZE as nat,
                |i: int| crate::controller_tables::default_controller_value(i),
            ));
        }
        MidiChannel {
            channel,
            patch: MidiPatch { program: 0, bank_msb: 0, bank_lsb: 0, is_gm_gs_drum: false },
            preset: None,
            preset_bank_idx: None,
            drum_channel: channel % 16 == DEFAULT_PERCUSSION as usize,
            lock_preset: false,
            locked_system: MIDISystem::Gs,
            channel_transpose_key_shift: 0,
            is_muted: false,
            lock_gs_nrpn_params: false,
            midi_controllers: controllers,
            locked_controllers: locked,
            data_entry_state: DATA_ENTRY_IDLE,
            generator_overrides: filled_i16(GENERATORS_AMOUNT, GENERATOR_OVERRIDE_NO_CHANGE_VALUE),
            generator_overrides_enabled: false,
            generator_offsets: filled_i16(GENERATORS_AMOUNT, 0),
            generator_offsets_enabled: false,
            channel_vibrato: ChannelVibrato { depth_half_cents: 0, rate_eighth_hz: 0, delay_960ths: 0 },
            random_pan: false,
            poly_mode: true,
            per_note_pitch: false,
            pitch_wheels: filled_i16(128, 8192),
            channel_octave_tuning: tuning,
            sys_ex_modulators: DynamicModulatorSystem::new(),
            insertion_enabled: false,
        }
    }

    /// Clears every generator override and disables overrides.
    pub fn reset_generator_overrides(&mut self)
        ensures
            final(self).generator_overrides@ == Seq::new(
                old(self).generator_overrides@.len(),
                |i: int| GENERATOR_OVERRIDE_NO_CHANGE_VALUE,
            ),
            *final(self) == (MidiChannel {
                generator_overrides: final(self).generator_overrides,
                generator_overrides_enabled: false,
                ..*old(self)
            }),
    {
        let n = self.generator_overrides.len();
        self.generator_overrides = filled_i16(n, GENERATOR_OVERRIDE_NO_CHANGE_VALUE);
        self.generator_overrides_enabled = false;
    }

    /// Sets every generator offset to 0 and disables offsets.
    pub fn reset_generator_offsets(&mut self)
        ensures
            final(self).generator_offsets@ == Seq::new(old(self).generator_offsets@.len(), |i: int| 0i16),
            *final(self) == (MidiChannel {
                generator_offsets: final(self).generator_offsets,
                generator_offsets_enabled: false,
                ..*old(self)
            }),
    {
        let n = self.generator_offsets.len();
        self.generator_offsets = filled_i16(n, 0);
        self.generator_offsets_enabled = false;
    }

    /// Resets the registered and non-registered parameter state: data entry goes
    /// idle, the four parameter number controllers are set to 127 (as 14-bit values,
    /// 127 << 7),
    /// and generator overrides and offsets are cleared.
    pub fn reset_parameters(&mut self)
        requires
            channel_wf(*old(self)),
        ensures
            channel_wf(*final(self)),
            final(self).midi_controllers@ == old(self).midi_controllers@
                .update(cc::NON_REGISTERED_PARAMETER_LSB as int, 16256i16)
                .update(cc::NON_REGISTERED_PARAMETER_MSB as int, 16256i16)
                .update(cc::REGISTERED_PARAMETER_LSB as int, 16256i16)
                .update(cc::REGISTERED_PARAMETER_MSB as int, 16256i16),
            final(self).generator_overrides@ == Seq::new(
                GENERATORS_AMOUNT as nat,
                |i: int| GENERATOR_OVERRIDE_NO_CHANGE_VALUE,
            ),
            final(self).generator_offsets@ == Seq::new(GENERATORS_AMOUNT as nat, |i: int| 0i16),
            *final(self) == (MidiChannel {
                data_entry_state: DATA_ENTRY_IDLE,
                midi_controllers: final(self).midi_controllers,
                generator_overrides: final(self).generator_overrides,
                generator_overrides_enabled: false,
                generator_offsets: final(self).generator_offsets,
                generator_offsets_enabled: false,
                ..*old(self)
            }),
    {
        self.data_entry_state = DATA_ENTRY_IDLE;
        self.midi_controllers.set(cc::NON_REGISTERED_PARAMETER_LSB as usize, 16256);
        self.midi_controllers.set(cc::NON_REGISTERED_PARAMETER_MSB as usize, 16256);
        self.midi_controllers.set(cc::REGISTERED_PARAMETER_LSB as usize, 16256);
        self.midi_controllers.set(cc::REGISTERED_PARAMETER_MSB as usize, 16256);
        self.reset_generator_overrides();
        self.reset_generator_offsets();
    }

    /// Sets the bank MSB of the patch, unless the preset is locked.
    pub fn set_bank_msb(&mut self, bank_msb: u8)
        ensures
            final(self).patch == if old(self).lock_preset {
                old(self).patch
            } else {
                MidiPatch { bank_msb, ..old(self).patch }
            },
            final(self).lock_preset == old(self).lock_preset,
            final(self).preset == old(self).preset,
            final(self).preset_bank_idx == old(self).preset_bank_idx,
            final(self).drum_channel == old(self).drum_channel,
            final(self).channel == old(self).channel,
            *final(self) == (MidiChannel { patch: final(self).patch, ..*old(self) }),
    {
        if !self.lock_preset {
            self.patch.bank_msb = bank_msb;
        }
    }

    /// Sets the bank LSB of the patch, unless the preset is locked.
    pub fn set_bank_lsb(&mut self, bank_lsb: u8)
        ensures
            final(self).patch == if old(self).lock_preset {
                old(self).patch
            } else {
                MidiPatch { bank_lsb, ..old(self).patch }
            },
            final(self).lock_preset == old(self).lock_preset,
            final(self).preset == old(self).preset,
            final(self).preset_bank_idx == old(self).preset_bank_idx,
            final(self).drum_channel == old(self).drum_channel,
            final(self).channel == old(self).channel,
            *final(self) == (MidiChannel { patch: final(self).patch, ..*old(self) }),
    {
        if !self.lock_preset {
            self.patch.bank_lsb = bank_lsb;
        }
    }

    /// Turns the GM/GS drum flag of the patch on or off; a change also resets both
    /// bank bytes to 0 (unless the preset is locked).
    pub fn set_gs_drums(&mut self, drums: bool)
        ensures
            final(self).patch == if drums == old(self).patch.is_gm_gs_drum {
                old(self).patch
            } else if old(self).lock_preset {
                MidiPatch { is_gm_gs_drum: drums, ..old(self).patch }
            } else {
                MidiPatch { is_gm_gs_drum: drums, bank_msb: 0, bank_lsb: 0, ..old(self).patch }
            },
            final(self).lock_preset == old(self).lock_preset,
            final(self).preset == old(self).preset,
            final(self).preset_bank_idx == old(self).preset_bank_idx,
            final(self).drum_channel == old(self).drum_channel,
            final(self).channel == old(self).channel,
            *final(self) == (MidiChannel { patch: final(self).patch, ..*old(self) }),
    {
        if drums == self.patch.is_gm_gs_drum {
            return;
        }
        self.set_bank_lsb(0);
        self.set_bank_msb(0);
        self.patch.is_gm_gs_drum = drums;
    }

    /// Marks the channel as a drum channel or a melodic one. Nothing changes while
    /// the preset is locked, before a preset was selected, or when the flag already
    /// has that value; otherwise the change is reported.
    pub fn set_drum_flag(&mut self, is_drum: bool) -> (r: Option<ChannelEvent>)
        ensures
            ({
                let changes = !old(self).lock_preset && old(self).preset is Some && old(self).drum_channel != is_drum;
                &&& final(self).drum_channel == if changes { is_drum } else { old(self).drum_channel }
                &&& r == if changes {
                    Some(ChannelEvent::DrumChange { channel: old(self).channel, is_drum })
                } else {
                    None
                }
            }),
            *final(self) == (MidiChannel { drum_channel: final(self).drum_channel, ..*old(self) }),
    {
        if self.lock_preset || self.preset.is_none() || self.drum_channel == is_drum {
            return None;
        }
        self.drum_channel = is_drum;
        Some(ChannelEvent::DrumChange { channel: self.channel, is_drum })
    }

    /// The steps of a program change, with what each establishes.
    fn program_change_steps<F: Fn()>(
        &mut self,
        program: u8,
        sound_bank_manager: &SoundBankManager<F>,
        system: MIDISystem,
        enable_event_system: bool,
    ) -> (r: Vec<ChannelEvent>)
        requires
            sound_bank_manager.wf(),
        ensures
            old(self).lock_preset ==> *final(self) == *old(self) && r@.len() == 0,
            !old(self).lock_preset ==> {
                let patch = MidiPatch { program, ..old(self).patch };
                let banks = sound_bank_manager.banks();
                let table = sound_bank_manager.table();
                &&& (banks.len() == 0 || table.len() == 0) ==> *final(self) == *old(self) && r@.len() == 0
                &&& (banks.len() > 0 && table.len() > 0) ==> {
                    let i = selected_preset_index(*sound_bank_manager, patch, system);
                    let p = table[i].0;
                    let b = table[i].1;
                    let drums = spec_preset_is_any_drums(p, spec_bank_is_xg(banks[b as int].sound_bank.presets@));
                    let drum_event: Seq<ChannelEvent> = if drums != old(self).drum_channel {
                        seq![ChannelEvent::DrumChange { channel: old(self).channel, is_drum: drums }]
                    } else {
                        Seq::empty()
                    };
                    let property_event: Seq<ChannelEvent> = if enable_event_system {
                        seq![ChannelEvent::PropertyChange { channel: old(self).channel }]
                    } else {
                        Seq::empty()
                    };
                    &&& *final(self) == (MidiChannel {
                        patch,
                        preset: final(self).preset,
                        preset_bank_idx: final(self).preset_bank_idx,
                        drum_channel: final(self).drum_channel,
                        ..*old(self)
                    })
                    &&& final(self).preset == Some(p)
                    &&& final(self).preset_bank_idx == Some(b)
                    &&& final(self).drum_channel == drums
                    &&& r@ == drum_event + seq![ChannelEvent::ProgramChange {
                        channel: old(self).channel,
                        patch: preset_patch(p),
                    }] + property_event
                }
            },
    {
        if self.lock_preset {
            return Vec::new();
        }
        let patch = MidiPatch { program, ..self.patch };
        let result = sound_bank_manager.get_preset_and_bank_idx(patch, system);
        let (preset, bank_idx) = match result {
            None => {
                return Vec::new();
            },
            Some(found) => found,
        };
        self.patch = patch;
        let bank = sound_bank_manager.sound_bank_at(bank_idx);
        let is_any_drums = preset.is_any_drums(bank.is_xg_bank());
        self.preset = Some(preset.clone());
        self.preset_bank_idx = Some(bank_idx);
        let mut events: Vec<ChannelEvent> = Vec::new();
        if is_any_drums != self.drum_channel {
            if let Some(ev) = self.set_drum_flag(is_any_drums) {
                events.push(ev);
            }
        }
        events.push(ChannelEvent::ProgramChange { channel: self.channel, patch: preset.to_midi_patch() });
        if enable_event_system {
            events.push(ChannelEvent::PropertyChange { channel: self.channel });
        }
        proof {
            let drum_event: Seq<ChannelEvent> = if is_any_drums != old(self).drum_channel {
                seq![ChannelEvent::DrumChange { channel: old(self).channel, is_drum: is_any_drums }]
            } else {
                Seq::empty()
            };
            let property_event: Seq<ChannelEvent> = if enable_event_system {
                seq![ChannelEvent::PropertyChange { channel: old(self).channel }]
            } else {
                Seq::empty()
            };
            assert(events@ =~= drum_event + seq![ChannelEvent::ProgramChange {
                channel: old(self).channel,
                patch: preset_patch(*preset),
            }] + property_event);
        }
        events
    }

    /// Changes the program: the patch takes the new program and the manager selects
    /// the preset for it in `system`. The channel then plays that preset, its drum
    /// flag follows whether the preset is a drum kit of any kind, and the program
    /// change (with the preset's own patch) and, when events are enabled, a property
    /// change are reported. Nothing happens, and nothing is reported, while the
    /// preset is locked or when no preset can be selected.
    pub fn program_change<F: Fn()>(
        &mut self,
        program: u8,
        sound_bank_manager: &SoundBankManager<F>,
        system: MIDISystem,
        enable_event_system: bool,
    ) -> (r: Vec<ChannelEvent>)
        requires
            sound_bank_manager.wf(),
        ensures
            *final(self) == spec_program_change(*old(self), program, *sound_bank_manager, system),
            r@ == spec_program_change_events(*old(self), program, *sound_bank_manager, system, enable_event_system),
    {
        let r = self.program_change_steps(program, sound_bank_manager, system, enable_event_system);
        proof {
            lemma_program_change_result(*old(self), *self, r@, program, *sound_bank_manager, system, enable_event_system);
        }
        r
    }

    /// Makes the channel a drum channel or a melodic one and selects its program
    /// again. In XG (and GM2) the bank MSB becomes the system's drum bank (or 0) and
    /// the LSB 0; in the other systems the GM/GS drum flag of the patch is set.
    pub fn set_drums<F: Fn()>(
        &mut self,
        is_drum: bool,
        sound_bank_manager: &SoundBankManager<F>,
        system: MIDISystem,
        enable_event_system: bool,
    ) -> (r: Vec<ChannelEvent>)
        requires
            sound_bank_manager.wf(),
        ensures
            *final(self) == spec_set_drums(*old(self), is_drum, *sound_bank_manager, system),
            r@ == spec_set_drums_events(*old(self), is_drum, *sound_bank_manager, system, enable_event_system),
    {
        let mut events: Vec<ChannelEvent> = Vec::new();
        self.set_drum_patch(is_drum, system);
        let ghost patched = *self;
        if let Some(ev) = self.set_drum_flag(is_drum) {
            events.push(ev);
        }
        assert(events@ =~= drum_flag_events(patched, is_drum));
        assert(*self == spec_drums_before_program(*old(self), is_drum, system));
        let program = self.patch.program;
        let mut more = self.program_change(program, sound_bank_manager, system, enable_event_system);
        events.append(&mut more);
        events
    }

    /// Sets the bank bytes (XG and GM2) or the GM/GS drum flag (GM and GS) of a drum
    /// channel or a melodic one.
    fn set_drum_patch(&mut self, is_drum: bool, system: MIDISystem)
        ensures
            *final(self) == spec_drum_patch(*old(self), is_drum, system),
    {
        reveal(spec_drum_patch);
        if BankSelectHacks::is_system_xg(system) {
            if is_drum {
                match BankSelectHacks::get_drum_bank(system) {
                    Some(b) => self.set_bank_msb(b),
                    None => {},
                }
                self.set_bank_lsb(0);
            } else {
                self.set_bank_msb(0);
                self.set_bank_lsb(0);
            }
        } else {
            self.set_gs_drums(is_drum);
        }
    }

    /// Resets the preset to the default of the system: the system's default bank
    /// MSB, LSB 0, GM/GS drums off and program 0; then drums on exactly for the
    /// default percussion channel of the port, which also selects the program again.
    pub fn reset_preset<F: Fn()>(
        &mut self,
        sound_bank_manager: &SoundBankManager<F>,
        system: MIDISystem,
        enable_event_system: bool,
    ) -> (r: Vec<ChannelEvent>)
        requires
            sound_bank_manager.wf(),
        ensures
            ({
                let c = spec_default_patch_banks(*old(self), system);
                let is_drum = is_default_percussion(old(self).channel);
                &&& *final(self) == spec_set_drums(c, is_drum, *sound_bank_manager, system)
                &&& r@ == spec_set_drums_events(c, is_drum, *sound_bank_manager, system, enable_event_system)
            }),
            !old(self).lock_preset ==> final(self).patch.program == 0 && final(self).patch.bank_lsb == 0,
    {
        self.set_default_banks(system);
        let is_drum = self.channel % 16 == DEFAULT_PERCUSSION as usize;
        let r = self.set_drums(is_drum, sound_bank_manager, system, enable_event_system);
        proof {
            reveal(spec_default_patch_banks);
            reveal(spec_drum_patch);
            reveal(spec_program_change);
            reveal(spec_program_change_events);
        }
        r
    }

    /// Sets the system's default bank MSB, LSB 0 and GM/GS drums off.
    fn set_default_banks(&mut self, system: MIDISystem)
        ensures
            *final(self) == spec_default_patch_banks(*old(self), system),
            final(self).channel == old(self).channel,
    {
        reveal(spec_default_patch_banks);
        self.set_bank_msb(BankSelectHacks::get_default_bank(system));
        self.set_bank_lsb(0);
        self.set_gs_drums(false);
        if !self.lock_preset {
            self.patch.program = 0;
        }
    }
}

impl MidiChannel {
    /// Sets the octave scale tuning: each key takes the entry of its pitch class.
    pub fn set_octave_tuning(&mut self, tuning: &[i8])
        requires
            tuning@.len() == 12,
            channel_wf(*old(self)),
        ensures
            channel_wf(*final(self)),
            final(self).channel_octave_tuning@ == Seq::new(128, |i: int| tuning@[i % 12]),
            *final(self) == (MidiChannel { channel_octave_tuning: final(self).channel_octave_tuning, ..*old(self) }),
    {
        let mut out: Vec<i8> = Vec::new();
        let mut i: usize = 0;
        while i < 128
            invariant
                i <= 128,
                tuning@.len() == 12,
                out@ == Seq::new(i as nat, |k: int| tuning@[k % 12]),
            decreases 128 - i,
        {
            out.push(tuning[i % 12]);
            i = i + 1;
            proof {
                assert(out@ =~= Seq::new(i as nat, |k: int| tuning@[k % 12]));
            }
        }
        self.channel_octave_tuning = out;
    }
}

/// The default preset of a new channel: the one the manager selects for program 0,
/// bank 0 in XG, with its bank; none when no bank is loaded.
pub fn get_default_preset_and_idx<F: Fn()>(sound_bank_manager: &SoundBankManager<F>) -> (r: (Option<BasicPreset>, Option<usize>))
    requires
        sound_bank_manager.wf(),
    ensures
        (sound_bank_manager.banks().len() == 0 || sound_bank_manager.table().len() == 0) <==> r.0 is None,
        r.0 is None <==> r.1 is None,
        r.0 is Some ==> {
            let i = selected_preset_index(
                *sound_bank_manager,
                MidiPatch { program: 0, bank_msb: 0, bank_lsb: 0, is_gm_gs_drum: false },
                MIDISystem::Xg,
            );
            &&& r.0 == Some(sound_bank_manager.table()[i].0)
            &&& r.1 == Some(sound_bank_manager.table()[i].1)
        },
{
    let patch = MidiPatch { program: 0, bank_msb: 0, bank_lsb: 0, is_gm_gs_drum: false };
    match sound_bank_manager.get_preset_and_bank_idx(patch, MIDISystem::Xg) {
        Some((preset, bank_idx)) => (Some(preset.clone()), Some(bank_idx)),
        None => (None, None),
    }
}

/// A new channel with the engine's default preset (see [`get_default_preset_and_idx`]);
/// the default percussion channel of each port is a drum channel.
pub fn create_midi_channel<F: Fn()>(channel_number: usize, sound_bank_manager: &SoundBankManager<F>) -> (r: MidiChannel)
    requires
        sound_bank_manager.wf(),
    ensures
        channel_wf(r),
        r.channel == channel_number,
        r.drum_channel == is_default_percussion(channel_number),
        (r.preset, r.preset_bank_idx) == get_default_preset_spec(*sound_bank_manager),
{
    let (preset, bank_idx) = get_default_preset_and_idx(sound_bank_manager);
    let mut channel = MidiChannel::new(channel_number);
    channel.preset = preset;
    channel.preset_bank_idx = bank_idx;
    channel
}

/// The default preset and bank of a new channel (see [`get_default_preset_and_idx`]).
pub open spec fn get_default_preset_spec<F: Fn()>(mgr: SoundBankManager<F>) -> (Option<BasicPreset>, Option<usize>) {
    if mgr.banks().len() == 0 || mgr.table().len() == 0 {
        (None, None)
    } else {
        let i = selected_preset_index(mgr, MidiPatch { program: 0, bank_msb: 0, bank_lsb: 0, is_gm_gs_drum: false }, MIDISystem::Xg);
        (Some(mgr.table()[i].0), Some(mgr.table()[i].1))
    }
}

impl ChannelContext for MidiChannel {
    fn generator_offsets_enabled(&self) -> (r: bool)
        ensures
            r == self.generator_offsets_enabled,
    {
        self.generator_offsets_enabled
    }

    fn generator_offsets(&self) -> (r: &[i16])
        ensures
            r@ == self.generator_offsets@,
    {
        self.generator_offsets.as_slice()
    }

    fn per_note_pitch(&self) -> (r: bool)
        ensures
            r == self.per_note_pitch,
    {
        self.per_note_pitch
    }

    fn pitch_wheels(&self) -> (r: &[i16])
        ensures
            r@ == self.pitch_wheels@,
    {
        self.pitch_wheels.as_slice()
    }

    fn midi_controllers(&self) -> (r: &[i16])
        ensures
            r@ == self.midi_controllers@,
    {
        self.midi_controllers.as_slice()
    }
}

} // verus!
