//! Indices of the engine's per-channel custom controllers.
use vstd::prelude::*;

verus! {

pub const CHANNEL_TUNING: u8 = 0;
pub const CHANNEL_TRANSPOSE_FINE: u8 = 1;
pub const MODULATION_MULTIPLIER: u8 = 2;
pub const MASTER_TUNING: u8 = 3;
pub const CHANNEL_TUNING_SEMITONES: u8 = 4;
pub const CHANNEL_KEY_SHIFT: u8 = 5;
pub const SF2_NPRN_GENERATOR_LSB: u8 = 6;

/// Data entry states of a channel (which parameter number the next data entry edits).
pub const DATA_ENTRY_IDLE: u8 = 0;
pub const DATA_ENTRY_RP_COARSE: u8 = 1;
pub const DATA_ENTRY_RP_FINE: u8 = 2;
pub const DATA_ENTRY_NRP_COARSE: u8 = 3;
pub const DATA_ENTRY_NRP_FINE: u8 = 4;
pub const DATA_ENTRY_DATA_COARSE: u8 = 5;
pub const DATA_ENTRY_DATA_FINE: u8 = 6;

/// Sample interpolation types.
pub const INTERPOLATION_LINEAR: u8 = 0;
pub const INTERPOLATION_NEAREST_NEIGHBOR: u8 = 1;
pub const INTERPOLATION_HERMITE: u8 = 2;

} // verus!
