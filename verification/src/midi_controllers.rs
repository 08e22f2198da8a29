//! MIDI control change numbers.
use vstd::prelude::*;

verus! {

pub const BANK_SELECT: u8 = 0;
pub const MODULATION_WHEEL: u8 = 1;
pub const BREATH_CONTROLLER: u8 = 2;
pub const FOOT_CONTROLLER: u8 = 4;
pub const PORTAMENTO_TIME: u8 = 5;
pub const DATA_ENTRY_MSB: u8 = 6;
pub const MAIN_VOLUME: u8 = 7;
pub const BALANCE: u8 = 8;
pub const PAN: u8 = 10;
pub const EXPRESSION_CONTROLLER: u8 = 11;
pub const EFFECT_CONTROL1: u8 = 12;
pub const EFFECT_CONTROL2: u8 = 13;
pub const GENERAL_PURPOSE_CONTROLLER1: u8 = 16;
pub const GENERAL_PURPOSE_CONTROLLER2: u8 = 17;
pub const GENERAL_PURPOSE_CONTROLLER3: u8 = 18;
pub const GENERAL_PURPOSE_CONTROLLER4: u8 = 19;
pub const BANK_SELECT_LSB: u8 = 32;
pub const MODULATION_WHEEL_LSB: u8 = 33;
pub const BREATH_CONTROLLER_LSB: u8 = 34;
pub const FOOT_CONTROLLER_LSB: u8 = 36;
pub const PORTAMENTO_TIME_LSB: u8 = 37;
pub const DATA_ENTRY_LSB: u8 = 38;
pub const MAIN_VOLUME_LSB: u8 = 39;
pub const BALANCE_LSB: u8 = 40;
pub const PAN_LSB: u8 = 42;
pub const EXPRESSION_CONTROLLER_LSB: u8 = 43;
pub const EFFECT_CONTROL1_LSB: u8 = 44;
pub const EFFECT_CONTROL2_LSB: u8 = 45;
pub const SUSTAIN_PEDAL: u8 = 64;
pub const PORTAMENTO_ON_OFF: u8 = 65;
pub const SOSTENUTO_PEDAL: u8 = 66;
pub const SOFT_PEDAL: u8 = 67;
pub const LEGATO_FOOTSWITCH: u8 = 68;
pub const HOLD2_PEDAL: u8 = 69;
pub const SOUND_VARIATION: u8 = 70;
pub const FILTER_RESONANCE: u8 = 71;
pub const RELEASE_TIME: u8 = 72;
pub const ATTACK_TIME: u8 = 73;
pub const BRIGHTNESS: u8 = 74;
pub const DECAY_TIME: u8 = 75;
pub const VIBRATO_RATE: u8 = 76;
pub const VIBRATO_DEPTH: u8 = 77;
pub const VIBRATO_DELAY: u8 = 78;
pub const SOUND_CONTROLLER10: u8 = 79;
pub const GENERAL_PURPOSE_CONTROLLER5: u8 = 80;
pub const GENERAL_PURPOSE_CONTROLLER6: u8 = 81;
pub const GENERAL_PURPOSE_CONTROLLER7: u8 = 82;
pub const GENERAL_PURPOSE_CONTROLLER8: u8 = 83;
pub const PORTAMENTO_CONTROL: u8 = 84;
pub const REVERB_DEPTH: u8 = 91;
pub const TREMOLO_DEPTH: u8 = 92;
pub const CHORUS_DEPTH: u8 = 93;
pub const VARIATION_DEPTH: u8 = 94;
pub const PHASER_DEPTH: u8 = 95;
pub const DATA_INCREMENT: u8 = 96;
pub const DATA_DECREMENT: u8 = 97;
pub const NON_REGISTERED_PARAMETER_LSB: u8 = 98;
pub const NON_REGISTERED_PARAMETER_MSB: u8 = 99;
pub const REGISTERED_PARAMETER_LSB: u8 = 100;
pub const REGISTERED_PARAMETER_MSB: u8 = 101;
pub const ALL_SOUND_OFF: u8 = 120;
pub const RESET_ALL_CONTROLLERS: u8 = 121;
pub const LOCAL_CONTROL_ON_OFF: u8 = 122;
pub const ALL_NOTES_OFF: u8 = 123;
pub const OMNI_MODE_OFF: u8 = 124;
pub const OMNI_MODE_ON: u8 = 125;
pub const MONO_MODE_ON: u8 = 126;
pub const POLY_MODE_ON: u8 = 127;

} // verus!
