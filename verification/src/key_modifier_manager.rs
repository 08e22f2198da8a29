//! Per-key overrides for channels: a key (channel, MIDI note) may carry its own
//! velocity and its own patch.
use vstd::prelude::*;
use std::collections::HashMap;
use crate::midi_patch::MidiPatch;

verus! {

broadcast use vstd::std_specs::hash::group_hash_axioms;

/// A per-key patch override, where -1 on a numeric field means "no change".
#[derive(Clone, Copy, Debug, PartialEq, Eq, Structural)]
pub struct KeyModifierPatch {
    /// -1 means unchanged.
    pub bank_lsb: i16,
    /// -1 means unchanged; a value of at least 0 marks an active override.
    pub bank_msb: i16,
    /// -1 means unchanged.
    pub program: i16,
    pub is_gm_gs_drum: bool,
}

/// The patch that a key override selects: each field truncated to a byte.
pub open spec fn spec_override_midi_patch(p: KeyModifierPatch) -> MidiPatch {
    MidiPatch {
        bank_lsb: p.bank_lsb as u8,
        bank_msb: p.bank_msb as u8,
        program: p.program as u8,
        is_gm_gs_drum: p.is_gm_gs_drum,
    }
}

/// Whether every number of an override patch fits in a byte (0-255).
pub open spec fn patch_fits_bytes(p: KeyModifierPatch) -> bool {
    &&& 0 <= p.bank_lsb <= 255
    &&& 0 <= p.bank_msb <= 255
    &&& 0 <= p.program <= 255
}

/// The patch that changes nothing.
pub open spec fn spec_no_override() -> KeyModifierPatch {
    KeyModifierPatch { bank_lsb: -1i16, bank_msb: -1i16, program: -1i16, is_gm_gs_drum: false }
}

impl KeyModifierPatch {
    /// The patch that changes nothing: every number -1, not a drum kit.
    pub fn no_override() -> (r: Self)
        ensures
            r == spec_no_override(),
    {
        KeyModifierPatch { bank_lsb: -1, bank_msb: -1, program: -1, is_gm_gs_drum: false }
    }

    /// Whether this patch carries an active bank override (bank MSB at least 0).
    pub fn has_override(&self) -> (r: bool)
        ensures
            r == (self.bank_msb >= 0),
    {
        self.bank_msb >= 0
    }

    /// The override as a MIDI patch. Every number must fit in a byte.
    pub fn to_midi_patch(&self) -> (r: MidiPatch)
        requires
            patch_fits_bytes(*self),
        ensures
            r == spec_override_midi_patch(*self),
            r.bank_lsb as int == self.bank_lsb,
            r.bank_msb as int == self.bank_msb,
            r.program as int == self.program,
            r.is_gm_gs_drum == self.is_gm_gs_drum,
    {
        MidiPatch {
            bank_lsb: self.bank_lsb as u8,
            bank_msb: self.bank_msb as u8,
            program: self.program as u8,
            is_gm_gs_drum: self.is_gm_gs_drum,
        }
    }
}

/// The overrides of one key: a velocity (-1 means unchanged) and a patch.
/// The key's gain override is a floating-point value and is kept beside the
/// library by the host.
#[derive(Clone, Copy, Debug, PartialEq, Eq, Structural)]
pub struct KeyModifier {
    /// The new velocity; -1 means unchanged.
    pub velocity: i16,
    /// The patch the key uses; -1 on a field means unchanged.
    pub patch: KeyModifierPatch,
}

impl Default for KeyModifier {
    fn default() -> (r: Self)
        ensures
            r.velocity == -1,
            r.patch == spec_no_override(),
    {
        KeyModifier { velocity: -1, patch: KeyModifierPatch::no_override() }
    }
}

/// The map key of a (channel, MIDI note) pair: `channel * 256 + note`.
pub open spec fn spec_key_index(channel: u8, midi_note: u8) -> u16 {
    (channel as int * 256 + midi_note as int) as u16
}

/// Computes the map key of a (channel, MIDI note) pair.
pub fn key_index(channel: u8, midi_note: u8) -> (r: u16)
    ensures
        r == spec_key_index(channel, midi_note),
        r as int == channel as int * 256 + midi_note as int,
{
    channel as u16 * 256 + midi_note as u16
}

/// Distinct (channel, note) pairs have distinct map keys.
pub proof fn lemma_key_index_injective(c1: u8, n1: u8, c2: u8, n2: u8)
    ensures
        spec_key_index(c1, n1) == spec_key_index(c2, n2) <==> (c1 == c2 && n1 == n2),
{
}

/// The velocity override a mapping gives a key: -1 where the key has none.
pub open spec fn velocity_in(m: Map<u16, KeyModifier>, channel: u8, midi_note: u8) -> i16 {
    let k = spec_key_index(channel, midi_note);
    if m.contains_key(k) { m[k].velocity } else { -1i16 }
}

/// Whether a mapping gives a key an active patch override.
pub open spec fn override_in(m: Map<u16, KeyModifier>, channel: u8, midi_note: u8) -> bool {
    let k = spec_key_index(channel, midi_note);
    m.contains_key(k) && m[k].patch.bank_msb >= 0
}

/// Manages the key overrides of all channels, keyed by `key_index(channel, note)`.
pub struct KeyModifierManager {
    key_mappings: HashMap<u16, KeyModifier>,
}

impl View for KeyModifierManager {
    type V = Map<u16, KeyModifier>;

    closed spec fn view(&self) -> Map<u16, KeyModifier> {
        self.key_mappings@
    }
}

impl KeyModifierManager {
    /// An empty manager.
    pub fn new() -> (r: Self)
        ensures
            r@ == Map::<u16, KeyModifier>::empty(),
    {
        KeyModifierManager { key_mappings: HashMap::new() }
    }

    /// Sets the overrides of a key, replacing any it had.
    pub fn add_mapping(&mut self, channel: u8, midi_note: u8, mapping: KeyModifier)
        ensures
            final(self)@ == old(self)@.insert(spec_key_index(channel, midi_note), mapping),
    {
        let k = key_index(channel, midi_note);
        self.key_mappings.insert(k, mapping);
    }

    /// Removes the overrides of a key (nothing happens where it has none).
    pub fn delete_mapping(&mut self, channel: u8, midi_note: u8)
        ensures
            final(self)@ == old(self)@.remove(spec_key_index(channel, midi_note)),
    {
        let k = key_index(channel, midi_note);
        self.key_mappings.remove(&k);
    }

    /// Removes every override.
    pub fn clear_mappings(&mut self)
        ensures
            final(self)@ == Map::<u16, KeyModifier>::empty(),
    {
        self.key_mappings.clear();
    }

    /// Replaces all overrides with the given map.
    pub fn set_mappings(&mut self, mappings: HashMap<u16, KeyModifier>)
        ensures
            final(self)@ == mappings@,
    {
        self.key_mappings = mappings;
    }

    /// The current overrides.
    pub fn get_mappings(&self) -> (r: &HashMap<u16, KeyModifier>)
        ensures
            r@ == self@,
    {
        &self.key_mappings
    }

    /// The velocity override of a key, or -1 where it has none.
    pub fn get_velocity(&self, channel: u8, midi_note: u8) -> (r: i16)
        ensures
            r == velocity_in(self@, channel, midi_note),
    {
        let k = key_index(channel, midi_note);
        match self.key_mappings.get(&k) {
            Some(m) => m.velocity,
            None => -1,
        }
    }

    /// Whether the key has an active patch override (bank MSB at least 0).
    pub fn has_override_patch(&self, channel: u8, midi_note: u8) -> (r: bool)
        ensures
            r == override_in(self@, channel, midi_note),
    {
        let k = key_index(channel, midi_note);
        match self.key_mappings.get(&k) {
            Some(m) => m.patch.has_override(),
            None => false,
        }
    }

    /// The patch override of a key; an error where the key has no overrides. The
    /// numbers of a key's override must fit in a byte.
    pub fn get_patch(&self, channel: u8, midi_note: u8) -> (r: Result<MidiPatch, &'static str>)
        requires
            self@.contains_key(spec_key_index(channel, midi_note))
                ==> patch_fits_bytes(self@[spec_key_index(channel, midi_note)].patch),
        ensures
            self@.contains_key(spec_key_index(channel, midi_note)) <==> r is Ok,
            r matches Ok(p) ==> p == spec_override_midi_patch(
                self@[spec_key_index(channel, midi_note)].patch,
            ),
            r matches Err(e) ==> e@ == "No modifier."@,
    {
        let k = key_index(channel, midi_note);
        match self.key_mappings.get(&k) {
            Some(m) => Ok(m.patch.to_midi_patch()),
            None => Err("No modifier."),
        }
    }
}

impl Default for KeyModifierManager {
    fn default() -> (r: Self)
        ensures
            r@ == Map::<u16, KeyModifier>::empty(),
    {
        KeyModifierManager::new()
    }
}

/// What a key reads back after its overrides are set: the key itself gets the new
/// velocity and override flag, and every other key keeps what it had.
pub proof fn lemma_read_after_add(
    m: Map<u16, KeyModifier>,
    channel: u8,
    midi_note: u8,
    mapping: KeyModifier,
    other_channel: u8,
    other_note: u8,
)
    ensures
        velocity_in(m.insert(spec_key_index(channel, midi_note), mapping), channel, midi_note)
            == mapping.velocity,
        override_in(m.insert(spec_key_index(channel, midi_note), mapping), channel, midi_note)
            == (mapping.patch.bank_msb >= 0),
        (other_channel != channel || other_note != midi_note) ==> {
            &&& velocity_in(m.insert(spec_key_index(channel, midi_note), mapping), other_channel, other_note)
                == velocity_in(m, other_channel, other_note)
            &&& override_in(m.insert(spec_key_index(channel, midi_note), mapping), other_channel, other_note)
                == override_in(m, other_channel, other_note)
        },
{
    lemma_key_index_injective(channel, midi_note, other_channel, other_note);
}

/// What a key reads back after its overrides are removed: no velocity override and
/// no patch override; every other key keeps what it had.
pub proof fn lemma_read_after_delete(
    m: Map<u16, KeyModifier>,
    channel: u8,
    midi_note: u8,
    other_channel: u8,
    other_note: u8,
)
    ensures
        velocity_in(m.remove(spec_key_index(channel, midi_note)), channel, midi_note) == -1,
        !override_in(m.remove(spec_key_index(channel, midi_note)), channel, midi_note),
        (other_channel != channel || other_note != midi_note) ==> {
            &&& velocity_in(m.remove(spec_key_index(channel, midi_note)), other_channel, other_note)
                == velocity_in(m, other_channel, other_note)
            &&& override_in(m.remove(spec_key_index(channel, midi_note)), other_channel, other_note)
                == override_in(m, other_channel, other_note)
        },
{
    lemma_key_index_injective(channel, midi_note, other_channel, other_note);
}

} // verus!
