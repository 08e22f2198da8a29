//! Snapshots of a channel's integer state, and how a snapshot is applied back. The
//! custom controllers and drum parameters (floating point) are saved and restored
//! by the host.
use vstd::prelude::*;
use vstd::string::*;
use crate::midi_channel::{
    channel_wf, create_midi_channel, spec_program_change, spec_program_change_events, get_default_preset_spec, is_default_percussion, selected_preset_index,
    ChannelEvent, ChannelVibrato, MidiChannel,
};
use crate::midi_patch::{MidiPatch, MidiPatchNamed};
use crate::midi_system::MIDISystem;
use crate::preset::{preset_patch, spec_bank_is_xg, spec_preset_is_any_drums, BasicPreset};
use crate::sound_bank_manager::SoundBankManager;

verus! {

/// The saved state of a channel.
pub struct ChannelSnapshot {
    /// The patch, with the name of the channel's preset ("undefined" without one).
    pub patch: MidiPatchNamed,
    pub lock_preset: bool,
    pub locked_system: MIDISystem,
    pub midi_controllers: Vec<i16>,
    pub locked_controllers: Vec<bool>,
    /// Whether GS NRPN parameters (the custom vibrato among them) are locked.
    pub lock_vibrato: bool,
    pub channel_vibrato: ChannelVibrato,
    pub channel_transpose_key_shift: i16,
    pub channel_octave_tuning: Vec<i8>,
    pub is_muted: bool,
    pub drum_channel: bool,
    pub channel_number: u8,
    pub insertion_enabled: bool,
}

/// The parts of a channel's state that a snapshot restores as they were saved.
pub struct RestoredState {
    pub midi_controllers: Seq<i16>,
    pub locked_controllers: Seq<bool>,
    pub lock_gs_nrpn_params: bool,
    pub channel_vibrato: ChannelVibrato,
    pub channel_transpose_key_shift: i16,
    pub channel_octave_tuning: Seq<i8>,
    pub is_muted: bool,
    pub lock_preset: bool,
    pub locked_system: MIDISystem,
    pub insertion_enabled: bool,
}

/// The restored parts of a channel's state.
pub open spec fn channel_state(c: MidiChannel) -> RestoredState {
    RestoredState {
        midi_controllers: c.midi_controllers@,
        locked_controllers: c.locked_controllers@,
        lock_gs_nrpn_params: c.lock_gs_nrpn_params,
        channel_vibrato: c.channel_vibrato,
        channel_transpose_key_shift: c.channel_transpose_key_shift,
        channel_octave_tuning: c.channel_octave_tuning@,
        is_muted: c.is_muted,
        lock_preset: c.lock_preset,
        locked_system: c.locked_system,
        insertion_enabled: c.insertion_enabled,
    }
}

/// The restored parts as a snapshot holds them.
pub open spec fn snapshot_state(s: ChannelSnapshot) -> RestoredState {
    RestoredState {
        midi_controllers: s.midi_controllers@,
        locked_controllers: s.locked_controllers@,
        lock_gs_nrpn_params: s.lock_vibrato,
        channel_vibrato: s.channel_vibrato,
        channel_transpose_key_shift: s.channel_transpose_key_shift,
        channel_octave_tuning: s.channel_octave_tuning@,
        is_muted: s.is_muted,
        lock_preset: s.lock_preset,
        locked_system: s.locked_system,
        insertion_enabled: s.insertion_enabled,
    }
}

/// Whether `s` is a snapshot of channel `c`.
pub open spec fn snapshot_of(s: ChannelSnapshot, c: MidiChannel) -> bool {
    &&& snapshot_state(s) == channel_state(c)
    &&& s.patch.patch == c.patch
    &&& s.drum_channel == c.drum_channel
    &&& s.channel_number == c.channel as u8
}

/// The patch a channel has after a snapshot is applied: the snapshot's patch, except
/// that when the GM/GS drum flag changes, both bank bytes end at 0.
pub open spec fn applied_patch(before: MidiPatch, saved: MidiPatch) -> MidiPatch {
    if before.is_gm_gs_drum == saved.is_gm_gs_drum {
        saved
    } else {
        MidiPatch { bank_msb: 0, bank_lsb: 0, ..saved }
    }
}

/// Whether `after` differs from `before` at most in the restored parts, the patch,
/// the preset (and its bank) and the drum flag.
pub open spec fn other_fields_kept(after: MidiChannel, before: MidiChannel) -> bool {
    after == (MidiChannel {
        midi_controllers: after.midi_controllers,
        locked_controllers: after.locked_controllers,
        lock_gs_nrpn_params: after.lock_gs_nrpn_params,
        channel_vibrato: after.channel_vibrato,
        channel_transpose_key_shift: after.channel_transpose_key_shift,
        channel_octave_tuning: after.channel_octave_tuning,
        is_muted: after.is_muted,
        lock_preset: after.lock_preset,
        locked_system: after.locked_system,
        insertion_enabled: after.insertion_enabled,
        patch: after.patch,
        preset: after.preset,
        preset_bank_idx: after.preset_bank_idx,
        drum_channel: after.drum_channel,
        ..before
    })
}

/// Whether `after` is channel `before` with snapshot `s` applied, in `system` with
/// the presets of `mgr`. Without presets the program change does nothing, so the
/// channel keeps its program.
pub open spec fn snapshot_applied<F: Fn()>(
    after: MidiChannel,
    before: MidiChannel,
    s: ChannelSnapshot,
    mgr: SoundBankManager<F>,
    system: MIDISystem,
) -> bool {
    let patch = applied_patch(before.patch, s.patch.patch);
    &&& channel_state(after) == snapshot_state(s)
    &&& other_fields_kept(after, before)
    &&& (mgr.banks().len() == 0 || mgr.table().len() == 0) ==> {
        &&& after.patch == (MidiPatch { program: before.patch.program, ..patch })
        &&& after.preset == before.preset
        &&& after.preset_bank_idx == before.preset_bank_idx
        &&& after.drum_channel == s.drum_channel
    }
    &&& (mgr.banks().len() > 0 && mgr.table().len() > 0) ==> {
        let i = selected_preset_index(mgr, patch, system);
        let p = mgr.table()[i].0;
        let b = mgr.table()[i].1;
        &&& after.patch == patch
        &&& after.preset == Some(p)
        &&& after.preset_bank_idx == Some(b)
        &&& after.drum_channel == spec_preset_is_any_drums(p, spec_bank_is_xg(mgr.banks()[b as int].sound_bank.presets@))
    }
}

/// The events that applying snapshot `s` to channel `before` reports: those of the
/// program change it makes (none without presets; otherwise a drum change when the
/// selected preset's kind differs from the saved drum flag, the program change, and a
/// property change when events are enabled).
pub open spec fn snapshot_events<F: Fn()>(
    before: MidiChannel,
    s: ChannelSnapshot,
    mgr: SoundBankManager<F>,
    system: MIDISystem,
    enable_event_system: bool,
) -> Seq<ChannelEvent> {
    if mgr.banks().len() == 0 || mgr.table().len() == 0 {
        Seq::empty()
    } else {
        let i = selected_preset_index(mgr, applied_patch(before.patch, s.patch.patch), system);
        let p = mgr.table()[i].0;
        let b = mgr.table()[i].1;
        let drums = spec_preset_is_any_drums(p, spec_bank_is_xg(mgr.banks()[b as int].sound_bank.presets@));
        let drum_event: Seq<ChannelEvent> = if drums != s.drum_channel {
            seq![ChannelEvent::DrumChange { channel: before.channel, is_drum: drums }]
        } else {
            Seq::empty()
        };
        let property_event: Seq<ChannelEvent> = if enable_event_system {
            seq![ChannelEvent::PropertyChange { channel: before.channel }]
        } else {
            Seq::empty()
        };
        drum_event + seq![ChannelEvent::ProgramChange { channel: before.channel, patch: preset_patch(p) }]
            + property_event
    }
}

impl ChannelSnapshot {
    /// A snapshot with the given values; the insertion assignment starts off.
    pub fn new(
        patch: MidiPatchNamed,
        lock_preset: bool,
        locked_system: MIDISystem,
        midi_controllers: Vec<i16>,
        locked_controllers: Vec<bool>,
        lock_vibrato: bool,
        channel_vibrato: ChannelVibrato,
        channel_transpose_key_shift: i16,
        channel_octave_tuning: Vec<i8>,
        is_muted: bool,
        drum_channel: bool,
        channel_number: u8,
    ) -> (r: Self)
        ensures
            r.patch == patch,
            r.lock_preset == lock_preset,
            r.locked_system == locked_system,
            r.midi_controllers == midi_controllers,
            r.locked_controllers == locked_controllers,
            r.lock_vibrato == lock_vibrato,
            r.channel_vibrato == channel_vibrato,
            r.channel_transpose_key_shift == channel_transpose_key_shift,
            r.channel_octave_tuning == channel_octave_tuning,
            r.is_muted == is_muted,
            r.drum_channel == drum_channel,
            r.channel_number == channel_number,
            !r.insertion_enabled,
    {
        ChannelSnapshot {
            patch,
            lock_preset,
            locked_system,
            midi_controllers,
            locked_controllers,
            lock_vibrato,
            channel_vibrato,
            channel_transpose_key_shift,
            channel_octave_tuning,
            is_muted,
            drum_channel,
            channel_number,
            insertion_enabled: false,
        }
    }

    /// An independent copy of a snapshot, with the same values.
    pub fn copy_from(snapshot: &ChannelSnapshot) -> (r: Self)
        ensures
            snapshot_state(r) == snapshot_state(*snapshot),
            r.patch.patch == snapshot.patch.patch,
            r.patch.name@ == snapshot.patch.name@,
            r.drum_channel == snapshot.drum_channel,
            r.channel_number == snapshot.channel_number,
    {
        ChannelSnapshot {
            patch: MidiPatchNamed { patch: snapshot.patch.patch, name: snapshot.patch.name.clone() },
            lock_preset: snapshot.lock_preset,
            locked_system: snapshot.locked_system,
            midi_controllers: snapshot.midi_controllers.clone(),
            locked_controllers: snapshot.locked_controllers.clone(),
            lock_vibrato: snapshot.lock_vibrato,
            channel_vibrato: snapshot.channel_vibrato,
            channel_transpose_key_shift: snapshot.channel_transpose_key_shift,
            channel_octave_tuning: snapshot.channel_octave_tuning.clone(),
            is_muted: snapshot.is_muted,
            drum_channel: snapshot.drum_channel,
            channel_number: snapshot.channel_number,
            insertion_enabled: snapshot.insertion_enabled,
        }
    }

    /// Saves the state of a channel.
    pub fn create(ch: &MidiChannel) -> (r: Self)
        ensures
            snapshot_of(r, *ch),
            r.patch.name@ == match ch.preset {
                Some(p) => p.name@,
                None => "undefined"@,
            },
    {
        let name = match &ch.preset {
            Some(p) => p.name.clone(),
            None => "undefined".to_string(),
        };
        ChannelSnapshot {
            patch: MidiPatchNamed { patch: ch.patch, name },
            lock_preset: ch.lock_preset,
            locked_system: ch.locked_system,
            midi_controllers: ch.midi_controllers.clone(),
            locked_controllers: ch.locked_controllers.clone(),
            lock_vibrato: ch.lock_gs_nrpn_params,
            channel_vibrato: ch.channel_vibrato,
            channel_transpose_key_shift: ch.channel_transpose_key_shift,
            channel_octave_tuning: ch.channel_octave_tuning.clone(),
            is_muted: ch.is_muted,
            drum_channel: ch.drum_channel,
            channel_number: #[verifier::truncate] (ch.channel as u8),
            insertion_enabled: ch.insertion_enabled,
        }
    }

    /// Sets the mute and drum flags, lifts the preset lock and sets the bank bytes
    /// and the GM/GS drum flag of the saved patch.
    fn restore_patch_banks(&self, ch: &mut MidiChannel)
        ensures
            final(ch).patch == (MidiPatch { program: old(ch).patch.program, ..applied_patch(old(ch).patch, self.patch.patch) }),
            !final(ch).lock_preset,
            final(ch).drum_channel == self.drum_channel,
            final(ch).preset == old(ch).preset,
            final(ch).preset_bank_idx == old(ch).preset_bank_idx,
            *final(ch) == (MidiChannel {
                is_muted: final(ch).is_muted,
                drum_channel: final(ch).drum_channel,
                lock_preset: final(ch).lock_preset,
                patch: final(ch).patch,
                ..*old(ch)
            }),
    {
        ch.is_muted = self.is_muted;
        ch.drum_channel = self.drum_channel;
        ch.lock_preset = false;
        let patch = self.patch.patch;
        ch.set_bank_msb(patch.bank_msb);
        ch.set_bank_lsb(patch.bank_lsb);
        ch.set_gs_drums(patch.is_gm_gs_drum);
    }

    /// Gives the channel the saved controllers, locks, vibrato, transposition,
    /// octave tuning, mute flag, preset lock, locked system and insertion assignment.
    fn restore_state(&self, ch: &mut MidiChannel)
        ensures
            channel_state(*final(ch)) == snapshot_state(*self),
            final(ch).patch == old(ch).patch,
            final(ch).preset == old(ch).preset,
            final(ch).preset_bank_idx == old(ch).preset_bank_idx,
            final(ch).drum_channel == old(ch).drum_channel,
            other_fields_kept(*final(ch), *old(ch)),
    {
        ch.midi_controllers = self.midi_controllers.clone();
        ch.locked_controllers = self.locked_controllers.clone();
        ch.lock_gs_nrpn_params = self.lock_vibrato;
        ch.channel_vibrato = self.channel_vibrato;
        ch.channel_transpose_key_shift = self.channel_transpose_key_shift;
        ch.channel_octave_tuning = self.channel_octave_tuning.clone();
        ch.is_muted = self.is_muted;
        ch.lock_preset = self.lock_preset;
        ch.locked_system = self.locked_system;
        ch.insertion_enabled = self.insertion_enabled;
    }

    /// Applies the snapshot to a channel: the mute and drum flags, the preset lock
    /// is lifted, the bank bytes and the GM/GS drum flag are set, the program is
    /// selected again (its events are returned), and then the controllers, locks,
    /// vibrato, transposition, octave tuning, preset lock and locked system and the
    /// insertion assignment take the saved values. The host restores the custom
    /// controllers and drum parameters, and turns the insertion effect on when the
    /// snapshot assigns it.
    pub fn apply<F: Fn()>(
        &self,
        ch: &mut MidiChannel,
        sound_bank_manager: &SoundBankManager<F>,
        system: MIDISystem,
        enable_event_system: bool,
    ) -> (r: Vec<ChannelEvent>)
        requires
            sound_bank_manager.wf(),
        ensures
            snapshot_applied(*final(ch), *old(ch), *self, *sound_bank_manager, system),
            r@ == snapshot_events(*old(ch), *self, *sound_bank_manager, system, enable_event_system),
    {
        self.restore_patch_banks(ch);
        proof {
            reveal(spec_program_change);
            reveal(spec_program_change_events);
        }
        let events = ch.program_change(self.patch.patch.program, sound_bank_manager, system, enable_event_system);
        self.restore_state(ch);
        events
    }
}

/// The number of channels after snapshots are applied: missing channels are added,
/// none is removed.
pub open spec fn grown_len(channels: nat, snapshots: nat) -> nat {
    if channels < snapshots { snapshots } else { channels }
}

/// The index of the last of the first `n` snapshots that names channel `c`, or -1.
pub open spec fn last_target(s: Seq<ChannelSnapshot>, c: int, n: int) -> int
    decreases n,
{
    if n <= 0 {
        -1
    } else if s[n - 1].channel_number as int == c {
        n - 1
    } else {
        last_target(s, c, n - 1)
    }
}

/// Whether at most one snapshot names channel `c`.
pub open spec fn names_once(s: Seq<ChannelSnapshot>, c: int) -> bool {
    forall|j: int, k: int|
        0 <= j < s.len() && 0 <= k < s.len() && (#[trigger] s[j]).channel_number as int == c
            && (#[trigger] s[k]).channel_number as int == c ==> j == k
}

/// Whether `after` is `grown` (the channels once the missing ones were added, the
/// first of them those of `before`) with each snapshot applied, for the channels
/// that one snapshot alone names.
pub open spec fn applied_once<F: Fn()>(
    after: Seq<MidiChannel>,
    grown: Seq<MidiChannel>,
    before: Seq<MidiChannel>,
    snapshots: Seq<ChannelSnapshot>,
    mgr: SoundBankManager<F>,
    system: MIDISystem,
) -> bool {
    &&& grown.len() == after.len()
    &&& forall|c: int| 0 <= c < before.len() ==> #[trigger] grown[c] == before[c]
    &&& forall|c: int|
        0 <= c < after.len() && names_once(snapshots, c) && last_target(snapshots, c, snapshots.len() as int) >= 0
            ==> snapshot_applied(
            #[trigger] after[c],
            grown[c],
            snapshots[last_target(snapshots, c, snapshots.len() as int)],
            mgr,
            system,
        )
}

proof fn lemma_last_target_bounds(s: Seq<ChannelSnapshot>, c: int, n: int)
    requires
        0 <= n <= s.len(),
    ensures
        -1 <= last_target(s, c, n) < n,
        last_target(s, c, n) >= 0 ==> s[last_target(s, c, n)].channel_number as int == c,
    decreases n,
{
    if n > 0 && s[n - 1].channel_number as int != c {
        lemma_last_target_bounds(s, c, n - 1);
    }
}

/// Whether channels `after` are channels `before` with `snapshots` applied: missing
/// channels were added as new channels, none was removed, every channel keeps its
/// number, a channel named by one snapshot alone is that snapshot applied to it, a
/// channel named by several has the restored state of the last of them, and the
/// others are as they were (or new).
pub open spec fn channels_restored<F: Fn()>(
    after: Seq<MidiChannel>,
    before: Seq<MidiChannel>,
    snapshots: Seq<ChannelSnapshot>,
    mgr: SoundBankManager<F>,
    system: MIDISystem,
) -> bool {
    &&& exists|grown: Seq<MidiChannel>| #[trigger] applied_once(after, grown, before, snapshots, mgr, system)
    &&& after.len() == grown_len(before.len(), snapshots.len())
    &&& forall|c: int| 0 <= c < before.len() ==> (#[trigger] after[c]).channel == before[c].channel
    &&& forall|c: int| before.len() <= c < after.len() ==> (#[trigger] after[c]).channel == c
    &&& forall|c: int| 0 <= c < after.len() && last_target(snapshots, c, snapshots.len() as int) >= 0
        ==> channel_state(#[trigger] after[c]) == snapshot_state(snapshots[last_target(snapshots, c, snapshots.len() as int)])
    &&& forall|c: int| 0 <= c < before.len() && last_target(snapshots, c, snapshots.len() as int) < 0
        ==> #[trigger] after[c] == before[c]
    &&& forall|c: int| before.len() <= c < after.len() && last_target(snapshots, c, snapshots.len() as int) < 0 ==> {
        &&& channel_wf(#[trigger] after[c])
        &&& after[c].drum_channel == is_default_percussion(c as usize)
        &&& (after[c].preset, after[c].preset_bank_idx) == get_default_preset_spec(mgr)
    }
}

/// Saves the state of every channel, in channel order.
pub fn create_channel_snapshots(channels: &Vec<MidiChannel>) -> (r: Vec<ChannelSnapshot>)
    ensures
        r@.len() == channels@.len(),
        forall|i: int| 0 <= i < r@.len() ==> snapshot_of(#[trigger] r@[i], channels@[i]),
{
    let mut out: Vec<ChannelSnapshot> = Vec::new();
    let mut i: usize = 0;
    while i < channels.len()
        invariant
            i <= channels@.len(),
            out@.len() == i,
            forall|k: int| 0 <= k < i ==> snapshot_of(#[trigger] out@[k], channels@[k]),
        decreases channels@.len() - i,
    {
        out.push(ChannelSnapshot::create(&channels[i]));
        i = i + 1;
    }
    out
}

/// Restores channels from their snapshots: channels are added (as new channels)
/// until every snapshot has one, none is removed, and each snapshot is applied in
/// turn to the channel it names; the events of all applications are returned in
/// order.
pub fn apply_channel_snapshots<F: Fn()>(
    snapshots: &Vec<ChannelSnapshot>,
    channels: &mut Vec<MidiChannel>,
    sound_bank_manager: &SoundBankManager<F>,
    system: MIDISystem,
    enable_event_system: bool,
) -> (r: Vec<ChannelEvent>)
    requires
        sound_bank_manager.wf(),
        forall|j: int| 0 <= j < snapshots@.len()
            ==> ((#[trigger] snapshots@[j]).channel_number as int) < grown_len(old(channels)@.len(), snapshots@.len()),
    ensures
        channels_restored(final(channels)@, old(channels)@, snapshots@, *sound_bank_manager, system),
{
    let ghost start = channels@;
    while channels.len() < snapshots.len()
        invariant
            sound_bank_manager.wf(),
            start.len() <= channels@.len() <= grown_len(start.len(), snapshots@.len()),
            forall|c: int| 0 <= c < start.len() ==> #[trigger] channels@[c] == start[c],
            forall|c: int| start.len() <= c < channels@.len() ==> {
                &&& (#[trigger] channels@[c]).channel == c
                &&& channel_wf(channels@[c])
                &&& channels@[c].drum_channel == is_default_percussion(c as usize)
                &&& (channels@[c].preset, channels@[c].preset_bank_idx) == get_default_preset_spec(*sound_bank_manager)
            },
        decreases snapshots@.len() - channels@.len(),
    {
        let n = channels.len();
        channels.push(create_midi_channel(n, sound_bank_manager));
    }
    let ghost grown = channels@;
    let mut events: Vec<ChannelEvent> = Vec::new();
    let mut j: usize = 0;
    while j < snapshots.len()
        invariant
            sound_bank_manager.wf(),
            j <= snapshots@.len(),
            channels@.len() == grown.len(),
            grown.len() == grown_len(start.len(), snapshots@.len()),
            forall|k: int| 0 <= k < snapshots@.len()
                ==> ((#[trigger] snapshots@[k]).channel_number as int) < grown.len(),
            forall|c: int| 0 <= c < grown.len() ==> (#[trigger] channels@[c]).channel == grown[c].channel,
            forall|c: int| 0 <= c < grown.len() && last_target(snapshots@, c, j as int) >= 0
                ==> channel_state(#[trigger] channels@[c]) == snapshot_state(snapshots@[last_target(snapshots@, c, j as int)]),
            forall|c: int| 0 <= c < grown.len() && last_target(snapshots@, c, j as int) < 0
                ==> #[trigger] channels@[c] == grown[c],
            forall|c: int| 0 <= c < grown.len() && names_once(snapshots@, c) && last_target(snapshots@, c, j as int) >= 0
                ==> snapshot_applied(#[trigger] channels@[c], grown[c], snapshots@[last_target(snapshots@, c, j as int)], *sound_bank_manager, system),
        decreases snapshots@.len() - j,
    {
        let idx = snapshots[j].channel_number as usize;
        let ghost before = channels@;
        let mut ev = snapshots[j].apply(&mut channels[idx], sound_bank_manager, system, enable_event_system);
        events.append(&mut ev);
        proof {
            assert forall|c: int| 0 <= c < grown.len() implies {
                &&& channels@[c].channel == grown[c].channel
                &&& last_target(snapshots@, c, j + 1) >= 0 ==> channel_state(channels@[c])
                    == snapshot_state(snapshots@[last_target(snapshots@, c, j + 1)])
                &&& last_target(snapshots@, c, j + 1) < 0 ==> channels@[c] == grown[c]
                &&& names_once(snapshots@, c) && last_target(snapshots@, c, j + 1) >= 0 ==> snapshot_applied(
                    channels@[c],
                    grown[c],
                    snapshots@[last_target(snapshots@, c, j + 1)],
                    *sound_bank_manager,
                    system,
                )
            } by {
                if c != idx as int {
                    assert(channels@[c] == before[c]);
                } else if names_once(snapshots@, c) {
                    lemma_last_target_bounds(snapshots@, c, j as int);
                    let lt = last_target(snapshots@, c, j as int);
                    if lt >= 0 {
                        assert(snapshots@[lt].channel_number as int == c);
                        assert(snapshots@[j as int].channel_number as int == c);
                        assert(lt == j as int);
                    }
                    assert(before[c] == grown[c]);
                }
            }
        }
        j = j + 1;
    }
    assert(applied_once(channels@, grown, start, snapshots@, *sound_bank_manager, system));
    events
}

/// Restoring the snapshots of a set of channels (numbered by position, at most 256 of
/// them) gives every one of those channels back its controllers, controller locks,
/// GS NRPN lock, vibrato, transposition, octave tuning, mute flag, preset lock, locked
/// system and insertion assignment, whatever channels they are applied to; when the
/// manager has presets, a channel that already existed also gets its patch back if
/// its GM/GS drum flag is that of the saved patch.
pub proof fn lemma_channel_snapshots_roundtrip<F: Fn()>(
    original: Seq<MidiChannel>,
    snapshots: Seq<ChannelSnapshot>,
    target: Seq<MidiChannel>,
    restored: Seq<MidiChannel>,
    mgr: SoundBankManager<F>,
    system: MIDISystem,
    c: int,
)
    requires
        original.len() <= 256,
        forall|i: int| 0 <= i < original.len() ==> (#[trigger] original[i]).channel == i,
        snapshots.len() == original.len(),
        forall|i: int| 0 <= i < snapshots.len() ==> snapshot_of(#[trigger] snapshots[i], original[i]),
        channels_restored(restored, target, snapshots, mgr, system),
        0 <= c < original.len(),
    ensures
        channel_state(restored[c]) == channel_state(original[c]),
        c < target.len() && mgr.banks().len() > 0 && mgr.table().len() > 0
            && target[c].patch.is_gm_gs_drum == original[c].patch.is_gm_gs_drum
            ==> restored[c].patch == original[c].patch,
{
    lemma_last_target_of_numbered(original, snapshots, c, snapshots.len() as int);
    assert forall|j: int, k: int|
        0 <= j < snapshots.len() && 0 <= k < snapshots.len() && (#[trigger] snapshots[j]).channel_number as int == c
            && (#[trigger] snapshots[k]).channel_number as int == c implies j == k by {
        assert(snapshot_of(snapshots[j], original[j]));
        assert(snapshot_of(snapshots[k], original[k]));
    }
    assert(names_once(snapshots, c));
    let grown = choose|grown: Seq<MidiChannel>| #[trigger] applied_once(restored, grown, target, snapshots, mgr, system);
    assert(applied_once(restored, grown, target, snapshots, mgr, system));
    assert(snapshot_applied(restored[c], grown[c], snapshots[c], mgr, system));
}

proof fn lemma_last_target_of_numbered(original: Seq<MidiChannel>, snapshots: Seq<ChannelSnapshot>, c: int, n: int)
    requires
        original.len() <= 256,
        forall|i: int| 0 <= i < original.len() ==> (#[trigger] original[i]).channel == i,
        snapshots.len() == original.len(),
        forall|i: int| 0 <= i < snapshots.len() ==> snapshot_of(#[trigger] snapshots[i], original[i]),
        0 <= c < n <= snapshots.len(),
    ensures
        last_target(snapshots, c, n) == c,
    decreases n,
{
    let k = n - 1;
    assert(snapshot_of(snapshots[k], original[k]));
    assert(original[k].channel == k);
    assert(snapshots[k].channel_number as int == k);
    if k != c {
        lemma_last_target_of_numbered(original, snapshots, c, n - 1);
    }
}

/// Applying a snapshot taken from a channel gives back the channel's controllers,
/// controller locks, GS NRPN lock, vibrato, transposition, octave tuning, mute flag,
/// preset lock, locked system and insertion assignment, whatever channel it is
/// applied to. When the manager has presets, the patch comes back too if the channel
/// it is applied to has the same GM/GS drum flag as the saved patch.
pub proof fn lemma_snapshot_roundtrip<F: Fn()>(
    original: MidiChannel,
    snapshot: ChannelSnapshot,
    target: MidiChannel,
    restored: MidiChannel,
    mgr: SoundBankManager<F>,
    system: MIDISystem,
)
    requires
        snapshot_of(snapshot, original),
        snapshot_applied(restored, target, snapshot, mgr, system),
    ensures
        channel_state(restored) == channel_state(original),
        mgr.banks().len() > 0 && mgr.table().len() > 0 && target.patch.is_gm_gs_drum == original.patch.is_gm_gs_drum
            ==> restored.patch == original.patch,
{
}

} // verus!
