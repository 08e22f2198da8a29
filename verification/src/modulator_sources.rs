//! SoundFont2 modulator source numbers (the non-controller sources).
use vstd::prelude::*;

verus! {

pub const NO_CONTROLLER: u8 = 0;
pub const NOTE_ON_VELOCITY: u8 = 2;
pub const NOTE_ON_KEY_NUM: u8 = 3;
pub const POLY_PRESSURE: u8 = 10;
pub const CHANNEL_PRESSURE: u8 = 13;
pub const PITCH_WHEEL: u8 = 14;
pub const PITCH_WHEEL_RANGE: u8 = 16;
pub const LINK: u8 = 127;

/// Curve types of a modulator source.
pub const CURVE_LINEAR: u8 = 0;
pub const CURVE_CONCAVE: u8 = 1;
pub const CURVE_CONVEX: u8 = 2;
pub const CURVE_SWITCH: u8 = 3;

} // verus!
