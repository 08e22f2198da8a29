//! Default MIDI controller values and the controllers that survive a reset.
//!
//! The controller table stores 14-bit values. It is extended past the 128 control change
//! numbers with the non-controller modulator sources (pitch wheel, pitch wheel range, ...).
use vstd::prelude::*;
use crate::midi_controllers as cc;
use crate::modulator_sources;

verus! {

/// Index of the first non-controller modulator source in the controller table.
pub const NON_CC_INDEX_OFFSET: usize = 128;

/// Size of the extended controller table.
pub const CONTROLLER_TABLE_SIZE: usize = 147;

/// Number of custom controllers of a channel.
pub const CUSTOM_CONTROLLER_TABLE_SIZE: usize = 7;

/// The 7-bit reset value of a controller table slot, before shifting to 14 bits.
pub open spec fn default_controller_value7(index: int) -> int {
    if index == cc::MAIN_VOLUME as int {
        100
    } else if index == cc::BALANCE as int || index == cc::PAN as int
        || index == cc::FILTER_RESONANCE as int || index == cc::RELEASE_TIME as int
        || index == cc::ATTACK_TIME as int || index == cc::BRIGHTNESS as int
        || index == cc::DECAY_TIME as int || index == cc::VIBRATO_RATE as int
        || index == cc::VIBRATO_DEPTH as int || index == cc::VIBRATO_DELAY as int
        || index == cc::GENERAL_PURPOSE_CONTROLLER6 as int
        || index == cc::GENERAL_PURPOSE_CONTROLLER8 as int
        || index == NON_CC_INDEX_OFFSET + modulator_sources::PITCH_WHEEL as int {
        64
    } else if index == cc::EXPRESSION_CONTROLLER as int || index == cc::PORTAMENTO_ON_OFF as int
        || index == cc::REGISTERED_PARAMETER_LSB as int
        || index == cc::REGISTERED_PARAMETER_MSB as int
        || index == cc::NON_REGISTERED_PARAMETER_LSB as int
        || index == cc::NON_REGISTERED_PARAMETER_MSB as int {
        127
    } else if index == cc::REVERB_DEPTH as int {
        40
    } else if index == NON_CC_INDEX_OFFSET + modulator_sources::PITCH_WHEEL_RANGE as int {
        2
    } else {
        0
    }
}

/// The 14-bit reset value of a controller table slot.
pub open spec fn default_controller_value(index: int) -> i16 {
    (default_controller_value7(index) * 128) as i16
}

pub(crate) fn default_controller_value_exec(index: usize) -> (r: i16)
    ensures
        r == default_controller_value(index as int),
{
    let v7: i16 = if index == cc::MAIN_VOLUME as usize {
        100
    } else if index == cc::BALANCE as usize || index == cc::PAN as usize
        || index == cc::FILTER_RESONANCE as usize || index == cc::RELEASE_TIME as usize
        || index == cc::ATTACK_TIME as usize || index == cc::BRIGHTNESS as usize
        || index == cc::DECAY_TIME as usize || index == cc::VIBRATO_RATE as usize
        || index == cc::VIBRATO_DEPTH as usize || index == cc::VIBRATO_DELAY as usize
        || index == cc::GENERAL_PURPOSE_CONTROLLER6 as usize
        || index == cc::GENERAL_PURPOSE_CONTROLLER8 as usize
        || index == NON_CC_INDEX_OFFSET + modulator_sources::PITCH_WHEEL as usize {
        64
    } else if index == cc::EXPRESSION_CONTROLLER as usize
        || index == cc::PORTAMENTO_ON_OFF as usize
        || index == cc::REGISTERED_PARAMETER_LSB as usize
        || index == cc::REGISTERED_PARAMETER_MSB as usize
        || index == cc::NON_REGISTERED_PARAMETER_LSB as usize
        || index == cc::NON_REGISTERED_PARAMETER_MSB as usize {
        127
    } else if index == cc::REVERB_DEPTH as usize {
        40
    } else if index == NON_CC_INDEX_OFFSET + modulator_sources::PITCH_WHEEL_RANGE as usize {
        2
    } else {
        0
    };
    v7 * 128
}

/// The default controller table (14-bit values). The values come from Falcosoft
/// MidiPlayer 6: volume 100, pan, balance and the sound controllers centred at 64,
/// expression 127, portamento on (with time 0), reverb 40, null RPN/NRPN,
/// pitch wheel centred and a pitch wheel range of 2 semitones.
pub fn build_default_midi_controller_values() -> (r: Vec<i16>)
    ensures
        r@.len() == CONTROLLER_TABLE_SIZE,
        forall|i: int| 0 <= i < CONTROLLER_TABLE_SIZE ==> #[trigger] r@[i]
            == default_controller_value(i),
{
    let mut v: Vec<i16> = Vec::new();
    let mut i: usize = 0;
    while i < CONTROLLER_TABLE_SIZE
        invariant
            i <= CONTROLLER_TABLE_SIZE,
            v@.len() == i,
            forall|j: int| 0 <= j < i ==> #[trigger] v@[j] == default_controller_value(j),
        decreases CONTROLLER_TABLE_SIZE - i,
    {
        v.push(default_controller_value_exec(i));
        i = i + 1;
    }
    v
}

/// The controllers that a Recommended Practice 15 reset leaves alone.
pub open spec fn spec_is_non_resettable(controller: u8) -> bool {
    controller == cc::BANK_SELECT || controller == cc::BANK_SELECT_LSB
        || controller == cc::MAIN_VOLUME || controller == cc::MAIN_VOLUME_LSB
        || controller == cc::PAN || controller == cc::PAN_LSB
        || controller == cc::REVERB_DEPTH || controller == cc::TREMOLO_DEPTH
        || controller == cc::CHORUS_DEPTH || controller == cc::VARIATION_DEPTH
        || controller == cc::PHASER_DEPTH || controller == cc::SOUND_VARIATION
        || controller == cc::FILTER_RESONANCE || controller == cc::RELEASE_TIME
        || controller == cc::ATTACK_TIME || controller == cc::BRIGHTNESS
        || controller == cc::DECAY_TIME || controller == cc::VIBRATO_RATE
        || controller == cc::VIBRATO_DEPTH || controller == cc::VIBRATO_DELAY
        || controller == cc::SOUND_CONTROLLER10 || controller == cc::POLY_MODE_ON
        || controller == cc::MONO_MODE_ON || controller == cc::OMNI_MODE_ON
        || controller == cc::OMNI_MODE_OFF || controller == cc::REGISTERED_PARAMETER_LSB
        || controller == cc::REGISTERED_PARAMETER_MSB
        || controller == cc::NON_REGISTERED_PARAMETER_LSB
        || controller == cc::NON_REGISTERED_PARAMETER_MSB
}

/// True for the controllers that a Recommended Practice 15 reset leaves alone.
pub fn is_non_resettable(controller: u8) -> (r: bool)
    ensures
        r == spec_is_non_resettable(controller),
{
    controller == cc::BANK_SELECT || controller == cc::BANK_SELECT_LSB
        || controller == cc::MAIN_VOLUME || controller == cc::MAIN_VOLUME_LSB
        || controller == cc::PAN || controller == cc::PAN_LSB
        || controller == cc::REVERB_DEPTH || controller == cc::TREMOLO_DEPTH
        || controller == cc::CHORUS_DEPTH || controller == cc::VARIATION_DEPTH
        || controller == cc::PHASER_DEPTH || controller == cc::SOUND_VARIATION
        || controller == cc::FILTER_RESONANCE || controller == cc::RELEASE_TIME
        || controller == cc::ATTACK_TIME || controller == cc::BRIGHTNESS
        || controller == cc::DECAY_TIME || controller == cc::VIBRATO_RATE
        || controller == cc::VIBRATO_DEPTH || controller == cc::VIBRATO_DELAY
        || controller == cc::SOUND_CONTROLLER10 || controller == cc::POLY_MODE_ON
        || controller == cc::MONO_MODE_ON || controller == cc::OMNI_MODE_ON
        || controller == cc::OMNI_MODE_OFF || controller == cc::REGISTERED_PARAMETER_LSB
        || controller == cc::REGISTERED_PARAMETER_MSB
        || controller == cc::NON_REGISTERED_PARAMETER_LSB
        || controller == cc::NON_REGISTERED_PARAMETER_MSB
}

/// The reverb send (0-127) a drum note is reset to: 0 for the kick drums (35 and 36),
/// 127 for every other note (SC-88 standard).
pub fn drum_reverb_reset_value(note: usize) -> (r: u8)
    ensures
        r == (if note == 35 || note == 36 { 0u8 } else { 127u8 }),
{
    match note {
        35 | 36 => 0,
        _ => 127,
    }
}

} // verus!
