//! Verified control logic of a SoundFont2 / MIDI synthesizer engine: MIDI system and
//! bank-select rules, controller tables, preset selection, the sound bank stack,
//! key modifiers, dynamic system-exclusive modulators, system-exclusive decoding and
//! the integer parts of voice management.
use vstd::prelude::*;

pub mod awe32;
pub mod channel_snapshot;
pub mod compute_modulator;
pub mod controller_reset;
pub mod controller_tables;
pub mod custom_controllers;
pub mod data_entry;
pub mod dynamic_modulator_system;
pub mod effect_macros;
pub mod generator_types;
pub mod insertion;
pub mod key_modifier_manager;
pub mod midi_channel;
pub mod midi_controllers;
pub mod midi_patch;
pub mod midi_system;
pub mod modulator;
pub mod modulator_curves;
pub mod modulator_sources;
pub mod portamento;
pub mod preset;
pub mod sound_bank_manager;
pub mod synth_constants;
pub mod sysex_gm;
pub mod sysex_gs;
pub mod sysex_helpers;
pub mod sysex_xg;
pub mod text;
pub mod voice_management;

verus! {

} // verus!
