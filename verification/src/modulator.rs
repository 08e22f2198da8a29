//! SoundFont2 modulators as the engine builds them at run time.
use vstd::prelude::*;

verus! {

/// One source of a modulator: which controller or modulator source drives it and
/// how its value is mapped.
#[derive(Clone, Copy, Debug, PartialEq, Eq, Structural)]
pub struct ModulatorSource {
    /// The MIDI controller number (for a controller source) or the modulator source
    /// number (otherwise).
    pub index: u8,
    /// The curve type (linear, concave, convex, switch).
    pub curve_type: u8,
    /// Whether `index` is a MIDI controller number.
    pub is_cc: bool,
    /// Whether the source maps to -1..1 rather than 0..1.
    pub is_bipolar: bool,
    /// Whether the mapping runs from 1 down to 0.
    pub is_negative: bool,
}

/// The source that contributes nothing: no controller, linear, unipolar, positive.
pub open spec fn spec_default_source() -> ModulatorSource {
    ModulatorSource { index: 0, curve_type: 0, is_cc: false, is_bipolar: false, is_negative: false }
}

impl Default for ModulatorSource {
    fn default() -> (r: Self)
        ensures
            r == spec_default_source(),
    {
        ModulatorSource { index: 0, curve_type: 0, is_cc: false, is_bipolar: false, is_negative: false }
    }
}

/// A modulator. Its amount is held exactly in units of 1/128, so a transform amount
/// of `a` is stored as `128 * a`.
#[derive(Clone, Copy, Debug, PartialEq, Eq, Structural)]
pub struct Modulator {
    pub primary_source: ModulatorSource,
    pub secondary_source: ModulatorSource,
    /// The generator this modulator drives.
    pub destination: u16,
    /// The transform amount, in units of 1/128.
    pub transform_amount_128ths: i32,
    /// The transform type (0 is linear, 2 is absolute value).
    pub transform_type: u8,
    /// Whether this is one of the reverb/chorus effect modulators.
    pub is_effect_modulator: bool,
    /// Whether this is the default resonant modulator.
    pub is_default_resonant_modulator: bool,
}

impl Modulator {
    /// A modulator from its parts.
    pub fn new(
        primary_source: ModulatorSource,
        secondary_source: ModulatorSource,
        destination: u16,
        transform_amount_128ths: i32,
        transform_type: u8,
        is_effect_modulator: bool,
        is_default_resonant_modulator: bool,
    ) -> (r: Self)
        ensures
            r == (Modulator {
                primary_source,
                secondary_source,
                destination,
                transform_amount_128ths,
                transform_type,
                is_effect_modulator,
                is_default_resonant_modulator,
            }),
    {
        Modulator {
            primary_source,
            secondary_source,
            destination,
            transform_amount_128ths,
            transform_type,
            is_effect_modulator,
            is_default_resonant_modulator,
        }
    }
}

} // verus!
