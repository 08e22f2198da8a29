//! The integer decisions of voice management: the key under which cached voices
//! are kept, which voice a new note takes, how voice-stealing priorities are formed
//! and how the voice cap is applied.
use vstd::prelude::*;
use crate::key_modifier_manager::{override_in, patch_fits_bytes, spec_key_index, spec_override_midi_patch, KeyModifierManager};
use crate::midi_channel::{channel_wf, selected_preset_index, MidiChannel};
use crate::midi_controllers as cc;
use crate::midi_patch::MidiPatch;
use crate::midi_system::MIDISystem;
use crate::preset::BasicPreset;
use crate::sound_bank_manager::SoundBankManager;

verus! {

/// The largest voice cap the engine accepts.
pub const MAX_VOICE_CAP: u32 = 1_000_000;

/// The bank bytes a patch is cached under: drum kits use MSB 128 and LSB 0.
pub open spec fn cache_banks(patch: MidiPatch) -> (int, int) {
    if patch.is_gm_gs_drum { (128, 0) } else { (patch.bank_msb as int, patch.bank_lsb as int) }
}

/// The cache key of a patch, note and velocity:
/// `msb + 128 lsb + 16384 program + 2097152 note + 268435456 velocity`.
pub open spec fn spec_cached_voice_index(patch: MidiPatch, midi_note: u8, velocity: u8) -> int {
    let (msb, lsb) = cache_banks(patch);
    msb + lsb * 128 + patch.program * 16384 + 2097152 * midi_note + 268435456 * velocity
}

/// The cache key of a patch, note and velocity (see [`spec_cached_voice_index`]).
pub fn get_cached_voice_index(patch: &MidiPatch, midi_note: u8, velocity: u8) -> (r: u64)
    ensures
        r == spec_cached_voice_index(*patch, midi_note, velocity),
{
    let (bank_msb, bank_lsb): (u64, u64) = if patch.is_gm_gs_drum {
        (128, 0)
    } else {
        (patch.bank_msb as u64, patch.bank_lsb as u64)
    };
    bank_msb + bank_lsb * 128 + patch.program as u64 * 16384 + 2097152 * midi_note as u64
        + 268435456 * velocity as u64
}

/// Whether a patch's bytes are 7-bit MIDI values.
pub open spec fn seven_bit_patch(p: MidiPatch) -> bool {
    p.program < 128 && p.bank_msb < 128 && p.bank_lsb < 128
}

/// Cache keys tell voices apart: for 7-bit patches, notes and velocities, two keys
/// are equal only for the same program, note, velocity and cached bank bytes, and
/// so for the same patch when both are melodic or both are drum kits.
pub proof fn lemma_cached_voice_index_distinguishes(
    a: MidiPatch,
    note_a: u8,
    vel_a: u8,
    b: MidiPatch,
    note_b: u8,
    vel_b: u8,
)
    requires
        seven_bit_patch(a),
        seven_bit_patch(b),
        note_a < 128,
        note_b < 128,
        vel_a < 128,
        vel_b < 128,
        spec_cached_voice_index(a, note_a, vel_a) == spec_cached_voice_index(b, note_b, vel_b),
        a.is_gm_gs_drum == b.is_gm_gs_drum,
    ensures
        note_a == note_b,
        vel_a == vel_b,
        a.program == b.program,
        cache_banks(a) == cache_banks(b),
        !a.is_gm_gs_drum ==> a == b,
{
    let (ma, la) = cache_banks(a);
    let (mb, lb) = cache_banks(b);
    let low_a = ma + la * 128;
    let low_b = mb + lb * 128;
    assert(0 <= low_a < 16384 && 0 <= low_b < 16384);
    let ka = low_a + a.program * 16384 + 2097152 * note_a + 268435456 * vel_a;
    let kb = low_b + b.program * 16384 + 2097152 * note_b + 268435456 * vel_b;
    assert(vel_a == vel_b && note_a == note_b && a.program == b.program && low_a == low_b) by (nonlinear_arith)
        requires
            ka == kb,
            ka == low_a + a.program * 16384 + 2097152 * note_a + 268435456 * vel_a,
            kb == low_b + b.program * 16384 + 2097152 * note_b + 268435456 * vel_b,
            0 <= low_a < 16384,
            0 <= low_b < 16384,
            0 <= a.program < 128,
            0 <= b.program < 128,
            0 <= note_a < 128,
            0 <= note_b < 128,
            0 <= vel_a,
            0 <= vel_b,
    ;
    if !a.is_gm_gs_drum {
        assert(ma == mb && la == lb) by (nonlinear_arith)
            requires
                ma + la * 128 == mb + lb * 128,
                0 <= ma < 128,
                0 <= mb < 128,
                0 <= la,
                0 <= lb,
        ;
    }
}

/// The first voice below the cap that is not playing, if any.
pub fn first_free_voice(active: &[bool], voice_cap: usize) -> (r: Option<usize>)
    requires
        voice_cap <= active@.len(),
    ensures
        r matches Some(i) ==> i < voice_cap && !active@[i as int] && forall|j: int| 0 <= j < i ==> active@[j],
        r is None ==> forall|j: int| 0 <= j < voice_cap ==> active@[j],
{
    let mut i: usize = 0;
    while i < voice_cap
        invariant
            i <= voice_cap,
            voice_cap <= active@.len(),
            forall|j: int| 0 <= j < i ==> active@[j],
        decreases voice_cap - i,
    {
        if !active[i] {
            return Some(i);
        }
        i = i + 1;
    }
    None
}

/// The voice below the cap with the lowest stealing priority; the first of them on a
/// tie. Voice 0 when the cap is 0 or 1.
pub fn lowest_priority_voice(priorities: &[i32], voice_cap: usize) -> (r: usize)
    requires
        voice_cap <= priorities@.len(),
        priorities@.len() > 0,
    ensures
        r < priorities@.len(),
        voice_cap > 0 ==> r < voice_cap,
        voice_cap <= 1 ==> r == 0,
        forall|j: int| 0 <= j < voice_cap ==> priorities@[r as int] <= priorities@[j],
        forall|j: int| 0 <= j < r ==> priorities@[r as int] < priorities@[j],
{
    let mut lowest: usize = 0;
    let mut i: usize = 1;
    while i < voice_cap
        invariant
            1 <= i,
            voice_cap <= priorities@.len(),
            priorities@.len() > 0,
            i <= voice_cap || voice_cap <= 1,
            voice_cap <= 1 ==> i == 1,
            lowest < priorities@.len(),
            lowest < i,
            forall|j: int| 0 <= j < i && j < voice_cap ==> priorities@[lowest as int] <= priorities@[j],
            forall|j: int| 0 <= j < lowest ==> priorities@[lowest as int] < priorities@[j],
        decreases voice_cap - i,
    {
        if priorities[i] < priorities[lowest] {
            lowest = i;
        }
        i = i + 1;
    }
    lowest
}

/// A voice's stealing priority: drum channels gain 5, voices in release lose 10,
/// every 25 of velocity adds 1, the volume envelope's stage number is subtracted and
/// so is the attenuation term (the envelope's attenuation in cB divided by 200).
pub open spec fn spec_voice_priority(
    drum_channel: bool,
    in_release: bool,
    velocity: u8,
    envelope_state: u8,
    attenuation_term: i32,
) -> int {
    (if drum_channel { 5int } else { 0 }) - (if in_release { 10int } else { 0 }) + velocity / 25 - envelope_state
        - attenuation_term
}

/// A voice's stealing priority (see [`spec_voice_priority`]); it must fit an `i32`.
pub fn voice_priority(
    drum_channel: bool,
    in_release: bool,
    velocity: u8,
    envelope_state: u8,
    attenuation_term: i32,
) -> (r: i32)
    requires
        i32::MIN <= spec_voice_priority(drum_channel, in_release, velocity, envelope_state, attenuation_term)
            <= i32::MAX,
    ensures
        r == spec_voice_priority(drum_channel, in_release, velocity, envelope_state, attenuation_term),
{
    let mut p: i32 = 0;
    if drum_channel {
        p = p + 5;
    }
    if in_release {
        p = p - 5;
    }
    p = p + velocity as i32 / 25;
    p = p - envelope_state as i32;
    if in_release {
        p = p - 5;
    }
    p - attenuation_term
}

/// The voice cap that is applied (at most `MAX_VOICE_CAP`) and how many voices must
/// be added so that there are at least that many.
pub fn apply_voice_cap(requested: u32, current_voices: usize) -> (r: (u32, usize))
    ensures
        r.0 == if requested > MAX_VOICE_CAP { MAX_VOICE_CAP } else { requested },
        r.1 == if r.0 > current_voices { r.0 - current_voices } else { 0 },
{
    let cap = if requested > MAX_VOICE_CAP { MAX_VOICE_CAP } else { requested };
    let add = if cap as usize > current_voices { cap as usize - current_voices } else { 0 };
    (cap, add)
}

/// What a note-off does: notes above 127 are ignored; in black MIDI mode notes of
/// melodic channels are killed; otherwise the playing voices of the note are
/// released, or held when the sustain pedal is down (at least 8192).
#[derive(Clone, Copy, Debug, PartialEq, Eq, Structural)]
pub enum NoteOffAction {
    Ignore,
    Kill { real_key: u8 },
    Release { real_key: u8, hold: bool },
}

/// The key a note sounds on: the note plus the channel's transposition and key
/// shift, truncated to a byte.
pub open spec fn spec_real_key(midi_note: u8, transpose_key_shift: i16, key_shift: i16) -> u8 {
    (midi_note + transpose_key_shift + key_shift) as u8
}

/// What a note-off does (see [`NoteOffAction`]).
pub open spec fn spec_note_off_action(
    midi_note: u8,
    transpose_key_shift: i16,
    key_shift: i16,
    black_midi_mode: bool,
    drum_channel: bool,
    sustain_value: i16,
) -> NoteOffAction {
    let real_key = spec_real_key(midi_note, transpose_key_shift, key_shift);
    if midi_note > 127 {
        NoteOffAction::Ignore
    } else if black_midi_mode && !drum_channel {
        NoteOffAction::Kill { real_key }
    } else {
        NoteOffAction::Release { real_key, hold: sustain_value >= 8192 }
    }
}

/// Decides what a note-off does (see [`spec_note_off_action`]).
pub fn note_off_action(
    midi_note: u8,
    transpose_key_shift: i16,
    key_shift: i16,
    black_midi_mode: bool,
    drum_channel: bool,
    sustain_value: i16,
) -> (r: NoteOffAction)
    requires
        i16::MIN <= midi_note + transpose_key_shift + key_shift <= i16::MAX,
        i16::MIN <= midi_note + transpose_key_shift <= i16::MAX,
    ensures
        r == spec_note_off_action(midi_note, transpose_key_shift, key_shift, black_midi_mode, drum_channel, sustain_value),
{
    if midi_note > 127 {
        return NoteOffAction::Ignore;
    }
    let real_key = #[verifier::truncate] ((midi_note as i16 + transpose_key_shift + key_shift) as u8);
    if black_midi_mode && !drum_channel {
        NoteOffAction::Kill { real_key }
    } else {
        NoteOffAction::Release { real_key, hold: sustain_value >= 8192 }
    }
}

/// What a note-off needs to know of a voice.
#[derive(Clone, Copy, Debug, PartialEq, Eq, Structural)]
pub struct VoiceKey {
    pub channel: usize,
    pub active: bool,
    pub real_key: u8,
    pub in_release: bool,
}

/// Whether a voice plays a key of a channel and is not yet released.
pub open spec fn voice_plays(v: VoiceKey, channel: usize, real_key: u8) -> bool {
    v.channel == channel && v.active && v.real_key == real_key && !v.in_release
}

/// The positions of the voices that play a key of a channel, in order.
pub open spec fn playing_voices(voices: Seq<VoiceKey>, channel: usize, real_key: u8) -> Seq<int> {
    Seq::new(voices.len(), |i: int| i).filter(|i: int| voice_plays(voices[i], channel, real_key))
}

/// The voices a note-off releases (or holds): the first `voice_count` voices that
/// play the key on the channel; none when the channel has no voices.
pub open spec fn spec_voices_to_release(voices: Seq<VoiceKey>, channel: usize, real_key: u8, voice_count: u32) -> Seq<int> {
    let p = playing_voices(voices, channel, real_key);
    if voice_count == 0 { Seq::empty() } else if p.len() <= voice_count { p } else { p.take(voice_count as int) }
}

/// The voices a note-off releases or holds (see [`spec_voices_to_release`]).
pub fn voices_to_release(voices: &[VoiceKey], channel: usize, real_key: u8, voice_count: u32) -> (r: Vec<usize>)
    ensures
        r@.map_values(|i: usize| i as int) == spec_voices_to_release(voices@, channel, real_key, voice_count),
{
    let mut out: Vec<usize> = Vec::new();
    if voice_count == 0 {
        proof {
            assert(out@.map_values(|i: usize| i as int) =~= Seq::<int>::empty());
        }
        return out;
    }
    let ghost pred = |i: int| voice_plays(voices@[i], channel, real_key);
    let mut i: usize = 0;
    let mut found: u32 = 0;
    while i < voices.len()
        invariant_except_break
            i <= voices@.len(),
            found as int == out@.len(),
            found < voice_count,
            out@.map_values(|k: usize| k as int) == Seq::new(i as nat, |k: int| k).filter(pred),
        invariant
            voice_count > 0,
            pred == (|i: int| voice_plays(voices@[i], channel, real_key)),
        ensures
            out@.map_values(|k: usize| k as int) == spec_voices_to_release(voices@, channel, real_key, voice_count),
        decreases voices@.len() - i,
    {
        let v = voices[i];
        let ghost before = out@;
        proof {
            let full = Seq::new((i + 1) as nat, |k: int| k);
            assert(full.drop_last() =~= Seq::new(i as nat, |k: int| k));
            assert(full.filter(pred) == if pred(i as int) {
                Seq::new(i as nat, |k: int| k).filter(pred).push(i as int)
            } else {
                Seq::new(i as nat, |k: int| k).filter(pred)
            }) by {
                reveal(Seq::filter);
            }
        }
        if v.channel == channel && v.active && v.real_key == real_key && !v.in_release {
            out.push(i);
            found = found + 1;
            proof {
                assert(out@.map_values(|k: usize| k as int) =~= before.map_values(|k: usize| k as int).push(i as int));
            }
            if found >= voice_count {
                proof {
                    lemma_prefix_filter(voices@, channel, real_key, (i + 1) as int);
                    assert(out@.map_values(|k: usize| k as int) == spec_voices_to_release(voices@, channel, real_key, voice_count));
                }
                break;
            }
        }
        i = i + 1;
    }
    proof {
        if i == voices.len() {
            assert(Seq::new(voices@.len(), |k: int| k) =~= Seq::new(i as nat, |k: int| k));
        }
    }
    out
}

/// The playing voices among the first `n` positions are a prefix of all playing
/// voices.
proof fn lemma_prefix_filter(voices: Seq<VoiceKey>, channel: usize, real_key: u8, n: int)
    requires
        0 <= n <= voices.len(),
    ensures
        ({
            let pred = |i: int| voice_plays(voices[i], channel, real_key);
            let pre = Seq::new(n as nat, |k: int| k).filter(pred);
            let all = playing_voices(voices, channel, real_key);
            &&& pre.len() <= all.len()
            &&& all.take(pre.len() as int) == pre
        }),
    decreases voices.len() - n,
{
    let pred = |i: int| voice_plays(voices[i], channel, real_key);
    if n < voices.len() {
        lemma_prefix_filter(voices, channel, real_key, n + 1);
        let full = Seq::new((n + 1) as nat, |k: int| k);
        assert(full.drop_last() =~= Seq::new(n as nat, |k: int| k));
        assert(full.filter(pred) == if pred(n) {
            Seq::new(n as nat, |k: int| k).filter(pred).push(n)
        } else {
            Seq::new(n as nat, |k: int| k).filter(pred)
        }) by {
            reveal(Seq::filter);
        }
        let pre = Seq::new(n as nat, |k: int| k).filter(pred);
        let all = playing_voices(voices, channel, real_key);
        let pre1 = full.filter(pred);
        assert(all.take(pre1.len() as int) == pre1);
        assert(all.take(pre.len() as int) =~= pre1.take(pre.len() as int));
        assert(pre1.take(pre.len() as int) =~= pre);
    } else {
        assert(Seq::new(voices.len(), |k: int| k) =~= Seq::new(n as nat, |k: int| k));
        let all = playing_voices(voices, channel, real_key);
        assert(all.take(all.len() as int) =~= all);
    }
}

/// The preset (and its bank) whose voices a note plays: for a key with a patch
/// override, the preset the manager selects for that patch in `system` (none without
/// presets); otherwise the channel's own preset, if it has one with a bank.
pub open spec fn spec_voice_preset<F: Fn()>(
    ch: MidiChannel,
    channel: u8,
    midi_note: u8,
    keys: Map<u16, crate::key_modifier_manager::KeyModifier>,
    mgr: SoundBankManager<F>,
    system: MIDISystem,
) -> Option<(BasicPreset, usize)> {
    if override_in(keys, channel, midi_note) {
        let patch = spec_override_midi_patch(keys[spec_key_index(channel, midi_note)].patch);
        if mgr.banks().len() == 0 || mgr.table().len() == 0 {
            None
        } else {
            Some(mgr.table()[selected_preset_index(mgr, patch, system)])
        }
    } else {
        match (ch.preset, ch.preset_bank_idx) {
            (Some(p), Some(b)) => Some((p, b)),
            _ => None,
        }
    }
}

/// The preset a note on `channel` takes its voices from (see [`spec_voice_preset`]).
pub fn voice_preset<F: Fn()>(
    ch: &MidiChannel,
    channel: u8,
    midi_note: u8,
    key_modifier_manager: &KeyModifierManager,
    sound_bank_manager: &SoundBankManager<F>,
    system: MIDISystem,
) -> (r: Option<(BasicPreset, usize)>)
    requires
        sound_bank_manager.wf(),
        override_in(key_modifier_manager@, channel, midi_note) ==> patch_fits_bytes(
            key_modifier_manager@[spec_key_index(channel, midi_note)].patch,
        ),
    ensures
        r == spec_voice_preset(*ch, channel, midi_note, key_modifier_manager@, *sound_bank_manager, system),
{
    if key_modifier_manager.has_override_patch(channel, midi_note) {
        let patch = match key_modifier_manager.get_patch(channel, midi_note) {
            Ok(p) => p,
            Err(_) => return None,
        };
        match sound_bank_manager.get_preset_and_bank_idx(patch, system) {
            Some((preset, bank_idx)) => Some((preset.clone(), bank_idx)),
            None => None,
        }
    } else {
        match (&ch.preset, ch.preset_bank_idx) {
            (Some(p), Some(b)) => Some((p.clone(), b)),
            _ => None,
        }
    }
}

/// The note-off a channel reports.
#[derive(Clone, Copy, Debug, PartialEq, Eq, Structural)]
pub struct NoteOffEvent {
    pub midi_note: u8,
    pub channel: usize,
}

/// What a note-off on a channel comes to: the event reported (none for a note
/// above 127), what is done to the key's voices, and for a release the voices it
/// applies to (each is held while the sustain pedal is down, released otherwise;
/// the release time is set by the host).
pub struct NoteOffPlan {
    pub event: Option<NoteOffEvent>,
    pub action: NoteOffAction,
    pub voices: Vec<usize>,
}

/// The voices a note-off with `action` applies to.
pub open spec fn spec_note_off_voices(action: NoteOffAction, voices: Seq<VoiceKey>, channel: usize, voice_count: u32) -> Seq<int> {
    match action {
        NoteOffAction::Release { real_key, .. } => spec_voices_to_release(voices, channel, real_key, voice_count),
        _ => Seq::empty(),
    }
}

/// A note-off on channel `ch`: `key_shift` is the channel's key-shift controller in
/// semitones, `voices` the synthesizer's voices and `voice_count` the number of
/// voices the channel plays.
pub fn note_off(
    ch: &MidiChannel,
    midi_note: u8,
    key_shift: i16,
    black_midi_mode: bool,
    voices: &[VoiceKey],
    voice_count: u32,
) -> (r: NoteOffPlan)
    requires
        channel_wf(*ch),
        i16::MIN <= midi_note + ch.channel_transpose_key_shift + key_shift <= i16::MAX,
        i16::MIN <= midi_note + ch.channel_transpose_key_shift <= i16::MAX,
    ensures
        r.event == if midi_note > 127 { None } else { Some(NoteOffEvent { midi_note, channel: ch.channel }) },
        r.action == spec_note_off_action(
            midi_note,
            ch.channel_transpose_key_shift,
            key_shift,
            black_midi_mode,
            ch.drum_channel,
            ch.midi_controllers@[cc::SUSTAIN_PEDAL as int],
        ),
        r.voices@.map_values(|i: usize| i as int) == spec_note_off_voices(r.action, voices@, ch.channel, voice_count),
{
    let action = note_off_action(
        midi_note,
        ch.channel_transpose_key_shift,
        key_shift,
        black_midi_mode,
        ch.drum_channel,
        ch.midi_controllers[cc::SUSTAIN_PEDAL as usize],
    );
    let event = if midi_note > 127 { None } else { Some(NoteOffEvent { midi_note, channel: ch.channel }) };
    let targets = match action {
        NoteOffAction::Release { real_key, .. } => voices_to_release(voices, ch.channel, real_key, voice_count),
        _ => {
            let v: Vec<usize> = Vec::new();
            proof {
                assert(v@.map_values(|i: usize| i as int) =~= Seq::<int>::empty());
            }
            v
        },
    };
    NoteOffPlan { event, action, voices: targets }
}

/// The voices a lowered voice cap switches off: those at positions from the cap up.
pub fn voices_above_cap(voice_cap: usize, voice_total: usize) -> (r: Vec<usize>)
    ensures
        r@.len() == if voice_cap < voice_total { voice_total - voice_cap } else { 0 },
        forall|k: int| 0 <= k < r@.len() ==> r@[k] == voice_cap + k,
{
    let mut out: Vec<usize> = Vec::new();
    let mut i: usize = voice_cap;
    while i < voice_total
        invariant
            voice_cap <= i,
            voice_cap < voice_total ==> i <= voice_total,
            voice_cap >= voice_total ==> i == voice_cap,
            out@.len() == i - voice_cap,
            forall|k: int| 0 <= k < out@.len() ==> out@[k] == voice_cap + k,
        decreases voice_total - i,
    {
        out.push(i);
        i = i + 1;
    }
    out
}

/// The number of samples a render call produces: the requested count, or when none
/// is requested what is left of the output after `start_index` (0 when nothing is).
pub fn render_quantum(sample_count: usize, output_len: usize, start_index: usize) -> (r: usize)
    ensures
        r == if sample_count > 0 {
            sample_count as int
        } else if output_len > start_index {
            output_len - start_index
        } else {
            0
        },
{
    if sample_count > 0 {
        sample_count
    } else {
        output_len.saturating_sub(start_index)
    }
}

/// Whether voice `i` is rendered: it lies below the voice cap, is active, and its
/// channel is not muted.
pub open spec fn renders(voice_cap: u32, active: Seq<bool>, channel: Seq<usize>, muted: Seq<bool>, i: int) -> bool {
    &&& 0 <= i < active.len()
    &&& i < voice_cap
    &&& active[i]
    &&& !muted[channel[i] as int]
}

/// The voices a render call renders, in order (see [`renders`]).
pub open spec fn spec_voices_to_render(voice_cap: u32, active: Seq<bool>, channel: Seq<usize>, muted: Seq<bool>) -> Seq<int> {
    Seq::new(active.len(), |i: int| i).filter(|i: int| renders(voice_cap, active, channel, muted, i))
}

/// The voices a render call renders. `active` and `channel` hold each voice's
/// activity and channel, `muted` each channel's mute flag; every active voice below
/// the cap must belong to an existing channel.
pub fn voices_to_render(voice_cap: u32, active: &[bool], channel: &[usize], muted: &[bool]) -> (r: Vec<usize>)
    requires
        channel@.len() == active@.len(),
        forall|i: int| 0 <= i < active@.len() && i < voice_cap && active@[i] ==> #[trigger] channel@[i] < muted@.len(),
    ensures
        r@.map_values(|i: usize| i as int) == spec_voices_to_render(voice_cap, active@, channel@, muted@),
{
    let ghost pred = |i: int| renders(voice_cap, active@, channel@, muted@, i);
    let mut out: Vec<usize> = Vec::new();
    let mut i: usize = 0;
    while i < active.len()
        invariant
            i <= active@.len(),
            channel@.len() == active@.len(),
            forall|k: int| 0 <= k < active@.len() && k < voice_cap && active@[k] ==> #[trigger] channel@[k] < muted@.len(),
            pred == (|i: int| renders(voice_cap, active@, channel@, muted@, i)),
            out@.map_values(|k: usize| k as int) == Seq::new(i as nat, |k: int| k).filter(pred),
        decreases active@.len() - i,
    {
        let ghost before = out@;
        proof {
            let full = Seq::new((i + 1) as nat, |k: int| k);
            assert(full.drop_last() =~= Seq::new(i as nat, |k: int| k));
            assert(full.filter(pred) == if pred(i as int) {
                Seq::new(i as nat, |k: int| k).filter(pred).push(i as int)
            } else {
                Seq::new(i as nat, |k: int| k).filter(pred)
            }) by {
                reveal(Seq::filter);
            }
        }
        if (i as u64) < (voice_cap as u64) && active[i] && !muted[channel[i]] {
            out.push(i);
            proof {
                assert(out@.map_values(|k: usize| k as int) =~= before.map_values(|k: usize| k as int).push(i as int));
            }
        }
        i = i + 1;
    }
    out
}

} // verus!
