//! SoundBlaster AWE32 NRPN generator changes: which generator an AWE32 parameter
//! drives and the value it gets. Values that need a logarithm (times to timecents,
//! frequencies to cents) are handed to the host as milliseconds or as the raw data
//! byte.
use vstd::prelude::*;
use crate::generator_types as gt;

verus! {

/// Number of AWE32 NRPN generators.
pub const AWE_NRPN_GENERATOR_COUNT: usize = 27;

/// The generator each AWE32 NRPN number drives.
pub open spec fn spec_awe_generator(awe_gen: int) -> u16 {
    if awe_gen == 0 { gt::DELAY_MOD_LFO }
    else if awe_gen == 1 { gt::FREQ_MOD_LFO }
    else if awe_gen == 2 { gt::DELAY_VIB_LFO }
    else if awe_gen == 3 { gt::FREQ_VIB_LFO }
    else if awe_gen == 4 { gt::DELAY_MOD_ENV }
    else if awe_gen == 5 { gt::ATTACK_MOD_ENV }
    else if awe_gen == 6 { gt::HOLD_MOD_ENV }
    else if awe_gen == 7 { gt::DECAY_MOD_ENV }
    else if awe_gen == 8 { gt::SUSTAIN_MOD_ENV }
    else if awe_gen == 9 { gt::RELEASE_MOD_ENV }
    else if awe_gen == 10 { gt::DELAY_VOL_ENV }
    else if awe_gen == 11 { gt::ATTACK_VOL_ENV }
    else if awe_gen == 12 { gt::HOLD_VOL_ENV }
    else if awe_gen == 13 { gt::DECAY_VOL_ENV }
    else if awe_gen == 14 { gt::SUSTAIN_VOL_ENV }
    else if awe_gen == 15 { gt::RELEASE_VOL_ENV }
    else if awe_gen == 16 { gt::FINE_TUNE }
    else if awe_gen == 17 { gt::MOD_LFO_TO_PITCH }
    else if awe_gen == 18 { gt::VIB_LFO_TO_PITCH }
    else if awe_gen == 19 { gt::MOD_ENV_TO_PITCH }
    else if awe_gen == 20 { gt::MOD_LFO_TO_VOLUME }
    else if awe_gen == 21 { gt::INITIAL_FILTER_FC }
    else if awe_gen == 22 { gt::INITIAL_FILTER_Q }
    else if awe_gen == 23 { gt::MOD_LFO_TO_FILTER_FC }
    else if awe_gen == 24 { gt::MOD_ENV_TO_FILTER_FC }
    else if awe_gen == 25 { gt::CHORUS_EFFECTS_SEND }
    else { gt::REVERB_EFFECTS_SEND }
}

/// The generator an AWE32 NRPN number drives (see [`spec_awe_generator`]).
pub fn awe_generator(awe_gen: usize) -> (r: u16)
    requires
        awe_gen < AWE_NRPN_GENERATOR_COUNT,
    ensures
        r == spec_awe_generator(awe_gen as int),
{
    match awe_gen {
        0 => gt::DELAY_MOD_LFO,
        1 => gt::FREQ_MOD_LFO,
        2 => gt::DELAY_VIB_LFO,
        3 => gt::FREQ_VIB_LFO,
        4 => gt::DELAY_MOD_ENV,
        5 => gt::ATTACK_MOD_ENV,
        6 => gt::HOLD_MOD_ENV,
        7 => gt::DECAY_MOD_ENV,
        8 => gt::SUSTAIN_MOD_ENV,
        9 => gt::RELEASE_MOD_ENV,
        10 => gt::DELAY_VOL_ENV,
        11 => gt::ATTACK_VOL_ENV,
        12 => gt::HOLD_VOL_ENV,
        13 => gt::DECAY_VOL_ENV,
        14 => gt::SUSTAIN_VOL_ENV,
        15 => gt::RELEASE_VOL_ENV,
        16 => gt::FINE_TUNE,
        17 => gt::MOD_LFO_TO_PITCH,
        18 => gt::VIB_LFO_TO_PITCH,
        19 => gt::MOD_ENV_TO_PITCH,
        20 => gt::MOD_LFO_TO_VOLUME,
        21 => gt::INITIAL_FILTER_FC,
        22 => gt::INITIAL_FILTER_Q,
        23 => gt::MOD_LFO_TO_FILTER_FC,
        24 => gt::MOD_ENV_TO_FILTER_FC,
        25 => gt::CHORUS_EFFECTS_SEND,
        _ => gt::REVERB_EFFECTS_SEND,
    }
}

/// What an AWE32 NRPN asks of the channel: a generator override, given directly, as
/// a time in milliseconds (to be turned into timecents), or as the data byte of an
/// LFO frequency (0.084 Hz per step, to be turned into cents). `realtime` overrides
/// also update the playing voices.
#[derive(Clone, Copy, Debug, PartialEq, Eq, Structural)]
pub enum AweAction {
    /// The NRPN number is not an AWE32 generator (it is logged).
    Invalid { awe_gen: usize },
    Override { generator: u16, value: i16, realtime: bool },
    OverrideTimeMs { generator: u16, ms: i32 },
    OverrideLfoFrequency { generator: u16, data_lsb: u8 },
}

/// `v` limited to `lo..=hi`.
pub open spec fn clip(v: int, lo: int, hi: int) -> int {
    if v < lo { lo } else if v > hi { hi } else { v }
}

/// Division rounding toward zero.
pub open spec fn div_toward_zero(n: int, d: int) -> int {
    if n >= 0 { n / d } else { -((-n) / d) }
}

/// What an AWE32 NRPN asks for: the data value is the 14-bit data entry centred on
/// 8192. Delays and decays/releases take four times the value as milliseconds
/// (limited to 0-5900 and 0-5940), attacks and holds the value (0-5940, 0-8191);
/// LFO frequencies use the data LSB; sustains are 7.5 cB per LSB step; the fine
/// tune is the value itself; LFO and envelope pitch depths are 9.375 cents per step
/// (value limited to -127..127); the mod LFO volume depth 1.875 cB per LSB step; the
/// cutoff 4335 + 59 cents per LSB step; Q 215 cB times LSB / 127; filter depths
/// 56.25 cents per step (value -64..63); effect sends 1000 / 255 per step (0-255).
/// Fractions are dropped toward zero.
pub open spec fn spec_awe32_action(awe_gen: usize, data_lsb: u8, data_msb: u8) -> AweAction {
    let dv = data_msb as int * 128 + data_lsb as int - 8192;
    let lsb = data_lsb as int;
    if awe_gen >= AWE_NRPN_GENERATOR_COUNT {
        AweAction::Invalid { awe_gen }
    } else {
        let g = spec_awe_generator(awe_gen as int);
        if g == gt::DELAY_MOD_LFO || g == gt::DELAY_VIB_LFO || g == gt::DELAY_VOL_ENV || g == gt::DELAY_MOD_ENV {
            AweAction::OverrideTimeMs { generator: g, ms: (4 * clip(dv, 0, 5900)) as i32 }
        } else if g == gt::ATTACK_VOL_ENV || g == gt::ATTACK_MOD_ENV {
            AweAction::OverrideTimeMs { generator: g, ms: clip(dv, 0, 5940) as i32 }
        } else if g == gt::HOLD_VOL_ENV || g == gt::HOLD_MOD_ENV {
            AweAction::OverrideTimeMs { generator: g, ms: clip(dv, 0, 8191) as i32 }
        } else if g == gt::DECAY_MOD_ENV || g == gt::DECAY_VOL_ENV || g == gt::RELEASE_VOL_ENV
            || g == gt::RELEASE_MOD_ENV {
            AweAction::OverrideTimeMs { generator: g, ms: (4 * clip(dv, 0, 5940)) as i32 }
        } else if g == gt::FREQ_VIB_LFO || g == gt::FREQ_MOD_LFO {
            AweAction::OverrideLfoFrequency { generator: g, data_lsb }
        } else if g == gt::SUSTAIN_VOL_ENV || g == gt::SUSTAIN_MOD_ENV {
            AweAction::Override { generator: g, value: (lsb * 15 / 2) as i16, realtime: false }
        } else if g == gt::FINE_TUNE {
            AweAction::Override { generator: g, value: dv as i16, realtime: true }
        } else if g == gt::MOD_LFO_TO_PITCH || g == gt::VIB_LFO_TO_PITCH {
            AweAction::Override { generator: g, value: div_toward_zero(clip(dv, -127, 127) * 75, 8) as i16, realtime: true }
        } else if g == gt::MOD_ENV_TO_PITCH {
            AweAction::Override { generator: g, value: div_toward_zero(clip(dv, -127, 127) * 75, 8) as i16, realtime: false }
        } else if g == gt::MOD_LFO_TO_VOLUME {
            AweAction::Override { generator: g, value: (lsb * 15 / 8) as i16, realtime: true }
        } else if g == gt::INITIAL_FILTER_FC {
            AweAction::Override { generator: g, value: (4335 + 59 * lsb) as i16, realtime: true }
        } else if g == gt::INITIAL_FILTER_Q {
            AweAction::Override { generator: g, value: (215 * lsb / 127) as i16, realtime: true }
        } else if g == gt::MOD_LFO_TO_FILTER_FC {
            AweAction::Override { generator: g, value: div_toward_zero(clip(dv, -64, 63) * 225, 4) as i16, realtime: true }
        } else if g == gt::MOD_ENV_TO_FILTER_FC {
            AweAction::Override { generator: g, value: div_toward_zero(clip(dv, -64, 63) * 225, 4) as i16, realtime: false }
        } else {
            AweAction::Override { generator: g, value: (clip(dv, 0, 255) * 1000 / 255) as i16, realtime: false }
        }
    }
}

fn clip_exec(v: i32, lo: i32, hi: i32) -> (r: i32)
    requires
        lo <= hi,
    ensures
        r == clip(v as int, lo as int, hi as int),
{
    if v < lo { lo } else if v > hi { hi } else { v }
}

fn scale_toward_zero(c: i32, num: i32, den: i32) -> (r: i32)
    requires
        -128 <= c <= 128,
        0 < num <= 1000,
        0 < den <= 1000,
    ensures
        r == div_toward_zero(c as int * num as int, den as int),
{
    if c >= 0 {
        assert(0 <= c * num <= 128000) by (nonlinear_arith)
            requires
                0 <= c <= 128,
                0 < num <= 1000,
        ;
        c * num / den
    } else {
        assert(0 <= (-c) * num <= 128000) by (nonlinear_arith)
            requires
                -128 <= c < 0,
                0 < num <= 1000,
        ;
        assert((-c) * num == -(c * num)) by (nonlinear_arith);
        -((-c) * num / den)
    }
}

/// What an AWE32 NRPN asks for (see [`spec_awe32_action`]).
pub fn awe32_action(awe_gen: usize, data_lsb: u8, data_msb: u8) -> (r: AweAction)
    ensures
        r == spec_awe32_action(awe_gen, data_lsb, data_msb),
{
    let dv: i32 = data_msb as i32 * 128 + data_lsb as i32 - 8192;
    let lsb: i32 = data_lsb as i32;
    if awe_gen >= AWE_NRPN_GENERATOR_COUNT {
        return AweAction::Invalid { awe_gen };
    }
    let g = awe_generator(awe_gen);
    if g == gt::DELAY_MOD_LFO || g == gt::DELAY_VIB_LFO || g == gt::DELAY_VOL_ENV || g == gt::DELAY_MOD_ENV {
        AweAction::OverrideTimeMs { generator: g, ms: 4 * clip_exec(dv, 0, 5900) }
    } else if g == gt::ATTACK_VOL_ENV || g == gt::ATTACK_MOD_ENV {
        AweAction::OverrideTimeMs { generator: g, ms: clip_exec(dv, 0, 5940) }
    } else if g == gt::HOLD_VOL_ENV || g == gt::HOLD_MOD_ENV {
        AweAction::OverrideTimeMs { generator: g, ms: clip_exec(dv, 0, 8191) }
    } else if g == gt::DECAY_MOD_ENV || g == gt::DECAY_VOL_ENV || g == gt::RELEASE_VOL_ENV
        || g == gt::RELEASE_MOD_ENV {
        AweAction::OverrideTimeMs { generator: g, ms: 4 * clip_exec(dv, 0, 5940) }
    } else if g == gt::FREQ_VIB_LFO || g == gt::FREQ_MOD_LFO {
        AweAction::OverrideLfoFrequency { generator: g, data_lsb }
    } else if g == gt::SUSTAIN_VOL_ENV || g == gt::SUSTAIN_MOD_ENV {
        AweAction::Override { generator: g, value: (lsb * 15 / 2) as i16, realtime: false }
    } else if g == gt::FINE_TUNE {
        AweAction::Override { generator: g, value: dv as i16, realtime: true }
    } else if g == gt::MOD_LFO_TO_PITCH || g == gt::VIB_LFO_TO_PITCH {
        let c = clip_exec(dv, -127, 127);
        AweAction::Override { generator: g, value: scale_toward_zero(c, 75, 8) as i16, realtime: true }
    } else if g == gt::MOD_ENV_TO_PITCH {
        let c = clip_exec(dv, -127, 127);
        AweAction::Override { generator: g, value: scale_toward_zero(c, 75, 8) as i16, realtime: false }
    } else if g == gt::MOD_LFO_TO_VOLUME {
        AweAction::Override { generator: g, value: (lsb * 15 / 8) as i16, realtime: true }
    } else if g == gt::INITIAL_FILTER_FC {
        AweAction::Override { generator: g, value: (4335 + 59 * lsb) as i16, realtime: true }
    } else if g == gt::INITIAL_FILTER_Q {
        AweAction::Override { generator: g, value: (215 * lsb / 127) as i16, realtime: true }
    } else if g == gt::MOD_LFO_TO_FILTER_FC {
        let c = clip_exec(dv, -64, 63);
        AweAction::Override { generator: g, value: scale_toward_zero(c, 225, 4) as i16, realtime: true }
    } else if g == gt::MOD_ENV_TO_FILTER_FC {
        let c = clip_exec(dv, -64, 63);
        AweAction::Override { generator: g, value: scale_toward_zero(c, 225, 4) as i16, realtime: false }
    } else {
        let c = clip_exec(dv, 0, 255);
        AweAction::Override { generator: g, value: (c * 1000 / 255) as i16, realtime: false }
    }
}

} // verus!
