//! Decoding of Roland GS system exclusive messages into the engine changes they ask
//! for. The message is given without its leading 0xF0: byte 0 is the manufacturer
//! (0x41), 1 the device, 2 the model, 3 the command, 4..6 the address and 7 the
//! first data byte.
use vstd::prelude::*;
use crate::controller_tables::NON_CC_INDEX_OFFSET;
use crate::generator_types;
use crate::midi_controllers;
use crate::midi_system::MIDISystem;
use crate::modulator_sources;
use vstd::arithmetic::div_mod::lemma_add_mod_noop;

verus! {

/// Which kind of GS message was not recognized (the text names it in the log).
#[derive(Clone, Copy, Debug, PartialEq, Eq, Structural)]
pub enum GsUnrecognized {
    /// "Roland GS"
    RolandGs,
    /// "Roland GS EFX"
    RolandGsEfx,
    /// "Roland GS Patch Part Parameter"
    RolandGsPatchPart,
}

/// A reverb parameter addressed by a GS message.
#[derive(Clone, Copy, Debug, PartialEq, Eq, Structural)]
pub enum GsReverbParameter {
    Macro,
    Character,
    PreLowpass,
    Level,
    Time,
    DelayFeedback,
    PreDelayTime,
}

/// A chorus parameter addressed by a GS message.
#[derive(Clone, Copy, Debug, PartialEq, Eq, Structural)]
pub enum GsChorusParameter {
    Macro,
    PreLowpass,
    Level,
    Feedback,
    Delay,
    Rate,
    Depth,
    SendToReverb,
    /// Also turns the delay effect on.
    SendToDelay,
}

/// A delay parameter addressed by a GS message. Each also turns the delay effect on.
#[derive(Clone, Copy, Debug, PartialEq, Eq, Structural)]
pub enum GsDelayParameter {
    Macro,
    PreLowpass,
    TimeCenter,
    TimeRatioLeft,
    TimeRatioRight,
    LevelCenter,
    LevelLeft,
    LevelRight,
    Level,
    Feedback,
    SendToReverb,
}

/// Where the insertion effect sends its output.
#[derive(Clone, Copy, Debug, PartialEq, Eq, Structural)]
pub enum GsEfxSend {
    Reverb,
    Chorus,
    /// Also turns the delay effect on.
    Delay,
}

/// The change a GS message asks of the engine.
#[derive(Clone, Copy, Debug, PartialEq, Eq, Structural)]
pub enum GsCommand {
    /// Not a message this engine knows; it is logged as unrecognized.
    NotRecognized(GsUnrecognized),
    /// A message that changes nothing.
    Ignored,
    /// Makes the channel a drum channel or a melodic one.
    SetDrums { channel: usize, is_drums: bool },
    /// Sets the channel's key shift custom controller, in semitones.
    KeyShift { channel: usize, semitones: i32 },
    /// Turns random panning on for the channel.
    RandomPan { channel: usize },
    /// Turns random panning off and sets the pan controller.
    Pan { channel: usize, value: u8 },
    /// A control change on the channel.
    ControllerChange { channel: usize, controller: u8, value: u8 },
    /// Sets the channel's octave scale tuning (from the message bytes, see
    /// `gs_scale_tuning`) and its tuning in cents.
    ScaleTuning { channel: usize, cents: i32 },
    /// Sets the pitch wheel range: registered parameter 0 then data entry.
    PitchWheelRange { channel: usize, semitones: u8 },
    /// Sets a system exclusive modulator of the channel (amount in 1/128 units).
    SysExModulator { channel: usize, source: usize, destination: u16, amount_128ths: i32, is_bipolar: bool },
    /// Resets all controllers to the given system.
    Reset(MIDISystem),
    /// Master pan, 0-127 with 64 in the centre.
    MasterPan { value: u8 },
    /// Master volume, 0-127.
    MasterVolume { value: u8 },
    /// Master key shift, in cents.
    MasterKeyShift { cents: i32 },
    /// An insertion effect parameter (address 0x03-0x16), value at most 127.
    EfxParameter { address: u8, value: u8 },
    /// Selects the insertion effect type (MSB << 8 | LSB).
    EfxType { efx_type: u16 },
    /// An insertion effect send level, 0-127.
    EfxSend { target: GsEfxSend, value: u8 },
    /// A patch name message (the name is in the message bytes).
    PatchName,
    Reverb { parameter: GsReverbParameter, value: u8 },
    Chorus { parameter: GsChorusParameter, value: u8 },
    Delay { parameter: GsDelayParameter, value: u8 },
    /// Turns the insertion effect on or off for the channel.
    EfxAssign { channel: usize, enabled: bool },
    /// Sound Canvas display data.
    Display,
    /// Roland master volume, 0-100 for unity.
    RolandMasterVolume { value: u8 },
}

/// The channel of a GS part number: part 0 is channel 10 (index 9), parts 1-9 are
/// channels 1-9 (indices 0-8), parts 10-15 are channels 11-16 (indices 10-15).
pub open spec fn spec_gs_part_channel(part: u8) -> u8 {
    if part == 0 { 9 } else if part <= 9 { (part - 1) as u8 } else { part }
}

/// The channel of a GS part number (see [`spec_gs_part_channel`]).
pub fn gs_part_channel(part: u8) -> (r: u8)
    ensures
        r == spec_gs_part_channel(part),
{
    if part == 0 { 9 } else if part <= 9 { part - 1 } else { part }
}

/// The GS part number of a channel: the inverse of [`spec_gs_part_channel`] on the
/// sixteen channels of a port (the channel is taken modulo 16).
pub open spec fn spec_channel_to_syx(channel: u8) -> u8 {
    let c = channel % 16;
    if c == 9 { 0 } else if c < 9 { (c + 1) as u8 } else { c }
}

/// The GS part number of a channel.
pub fn channel_to_syx(channel: u8) -> (r: u8)
    ensures
        r == spec_channel_to_syx(channel),
        r < 16,
{
    let c = channel % 16;
    if c == 9 { 0 } else if c < 9 { c + 1 } else { c }
}

/// Part numbers and channels correspond one to one on a port.
pub proof fn lemma_part_channel_roundtrip(channel: u8, part: u8)
    ensures
        channel < 16 ==> spec_gs_part_channel(spec_channel_to_syx(channel)) == channel,
        part < 16 ==> spec_channel_to_syx(spec_gs_part_channel(part)) == part,
{
}

/// Whether every byte the GS handler reads is present.
pub open spec fn gs_readable(s: Seq<u8>) -> bool {
    &&& s.len() >= 4
    &&& s[3] == 0x12 ==> {
        &&& s[2] == 0x42 ==> s.len() >= 8
        &&& s[2] == 0x45 ==> s.len() >= 5 && (s[4] == 0x10 ==> s.len() >= 6)
        &&& s[2] == 0x16 ==> s.len() >= 5 && (s[4] == 0x10 ==> s.len() >= 8)
    }
}

/// The channel a part-addressed message speaks of: its part's channel plus the port
/// offset.
pub open spec fn spec_part_target(s: Seq<u8>, channel_offset: usize) -> usize {
    (spec_gs_part_channel(s[5] & 0x0f) + channel_offset) as usize
}

/// Individual part parameters (address 0x40 1x ..).
pub open spec fn spec_gs_part_parameter(s: Seq<u8>, channel_offset: usize) -> GsCommand {
    let channel = spec_part_target(s, channel_offset);
    let v = s[7];
    if s[6] == 0x15 {
        GsCommand::SetDrums { channel, is_drums: v > 0 && (s[5] >> 4u8) > 0 }
    } else if s[6] == 0x16 {
        GsCommand::KeyShift { channel, semitones: (v - 64) as i32 }
    } else if s[6] == 0x1c {
        if v == 0 { GsCommand::RandomPan { channel } } else { GsCommand::Pan { channel, value: v } }
    } else if s[6] == 0x21 {
        GsCommand::ControllerChange { channel, controller: midi_controllers::CHORUS_DEPTH, value: v }
    } else if s[6] == 0x22 {
        GsCommand::ControllerChange { channel, controller: midi_controllers::REVERB_DEPTH, value: v }
    } else if 0x40 <= s[6] <= 0x4b {
        GsCommand::ScaleTuning { channel, cents: (v - 64) as i32 }
    } else {
        GsCommand::NotRecognized(GsUnrecognized::RolandGs)
    }
}

/// The modulator source selected by the upper nibble of a controller-receive
/// address: the source (controller number, or non-controller offset plus modulator
/// source) and whether it is bipolar.
pub open spec fn spec_gs_mod_source(hi: u8) -> Option<(usize, bool)> {
    if hi == 0x00 {
        Some((midi_controllers::MODULATION_WHEEL as usize, false))
    } else if hi == 0x10 {
        Some(((NON_CC_INDEX_OFFSET + modulator_sources::PITCH_WHEEL) as usize, true))
    } else if hi == 0x20 {
        Some(((NON_CC_INDEX_OFFSET + modulator_sources::CHANNEL_PRESSURE) as usize, false))
    } else if hi == 0x30 {
        Some(((NON_CC_INDEX_OFFSET + modulator_sources::POLY_PRESSURE) as usize, false))
    } else {
        None
    }
}

/// The destination and amount (1/128 units) that the lower nibble of a
/// controller-receive address and the value select. Pitch is `(v - 64)` semitones,
/// cutoff `(v - 64) / 64 * 9600` cents, amplitude and LFO amplitude depths
/// `(v - 64) / 64 * 960` cB, LFO pitch depths `v / 128 * 600` cents and LFO filter
/// depths `v / 128 * 2400` cents. Rate controls (3 and 7) and the rest set nothing.
pub open spec fn spec_gs_mod_target(lo: u8, v: u8) -> Option<(u16, i32)> {
    let centered = v - 64;
    if lo == 0x00 {
        Some((generator_types::FINE_TUNE, (centered * 12800) as i32))
    } else if lo == 0x01 {
        Some((generator_types::INITIAL_FILTER_FC, (centered * 19200) as i32))
    } else if lo == 0x02 {
        Some((generator_types::INITIAL_ATTENUATION, (centered * 1920) as i32))
    } else if lo == 0x04 {
        Some((generator_types::VIB_LFO_TO_PITCH, (v * 600) as i32))
    } else if lo == 0x05 {
        Some((generator_types::VIB_LFO_TO_FILTER_FC, (v * 2400) as i32))
    } else if lo == 0x06 {
        Some((generator_types::VIB_LFO_TO_VOLUME, (centered * 1920) as i32))
    } else if lo == 0x08 {
        Some((generator_types::MOD_LFO_TO_PITCH, (v * 600) as i32))
    } else if lo == 0x09 {
        Some((generator_types::MOD_LFO_TO_FILTER_FC, (v * 2400) as i32))
    } else if lo == 0x0a {
        Some((generator_types::MOD_LFO_TO_VOLUME, (centered * 1920) as i32))
    } else {
        None
    }
}

/// Controller-receive parameters of a part (address 0x40 2x ..): a controller or
/// modulator source drives a parameter. Pitch control from the pitch wheel sets the
/// pitch wheel range instead.
pub open spec fn spec_gs_part_modulator(s: Seq<u8>, channel_offset: usize) -> GsCommand {
    let channel = spec_part_target(s, channel_offset);
    let v = s[7];
    let hi = s[6] & 0xf0;
    let lo = s[6] & 0x0f;
    match spec_gs_mod_source(hi) {
        None => GsCommand::NotRecognized(GsUnrecognized::RolandGs),
        Some((source, is_bipolar)) => {
            if lo == 0 && hi == 0x10 {
                GsCommand::PitchWheelRange { channel, semitones: if v >= 64 { (v - 64) as u8 } else { 0 } }
            } else {
                match spec_gs_mod_target(lo, v) {
                    None => GsCommand::Ignored,
                    Some((destination, amount_128ths)) => GsCommand::SysExModulator {
                        channel,
                        source,
                        destination,
                        amount_128ths,
                        is_bipolar,
                    },
                }
            }
        },
    }
}

/// System parameters (address 0x40 00 ..).
pub open spec fn spec_gs_system(s: Seq<u8>) -> GsCommand {
    let v = s[7];
    if s[6] == 0x7f {
        if v == 0x00 {
            GsCommand::Reset(MIDISystem::Gs)
        } else if v == 0x7f {
            GsCommand::Reset(MIDISystem::Gm)
        } else {
            GsCommand::Ignored
        }
    } else if s[6] == 0x06 {
        GsCommand::MasterPan { value: v }
    } else if s[6] == 0x04 {
        GsCommand::MasterVolume { value: v }
    } else if s[6] == 0x05 {
        GsCommand::MasterKeyShift { cents: ((v - 64) * 100) as i32 }
    } else {
        GsCommand::NotRecognized(GsUnrecognized::RolandGs)
    }
}

/// The EFX type in a type-selection message: the first data byte (at most 127) is
/// the MSB, the next byte (0 when absent) the LSB.
pub open spec fn spec_efx_type(s: Seq<u8>) -> u16 {
    let msb: u8 = if s[7] > 127 { 127 } else { s[7] };
    let lsb: u8 = if s.len() > 8 { s[8] } else { 0 };
    (msb as u16 * 256 + lsb as u16) as u16
}

/// Insertion effect messages (address 0x40 03 ..). Data bytes are clamped to 127.
pub open spec fn spec_gs_efx(s: Seq<u8>) -> GsCommand {
    let a3 = s[6];
    let data: u8 = if s[7] > 127 { 127 } else { s[7] };
    if 0x03 <= a3 <= 0x16 {
        GsCommand::EfxParameter { address: a3, value: data }
    } else if a3 == 0x00 {
        GsCommand::EfxType { efx_type: spec_efx_type(s) }
    } else if a3 == 0x17 {
        GsCommand::EfxSend { target: GsEfxSend::Reverb, value: data }
    } else if a3 == 0x18 {
        GsCommand::EfxSend { target: GsEfxSend::Chorus, value: data }
    } else if a3 == 0x19 {
        GsCommand::EfxSend { target: GsEfxSend::Delay, value: data }
    } else {
        GsCommand::NotRecognized(GsUnrecognized::RolandGsEfx)
    }
}

/// The reverb parameter at an address of the 0x40 01 block.
pub open spec fn spec_gs_reverb_parameter(a3: u8) -> Option<GsReverbParameter> {
    if a3 == 0x30 { Some(GsReverbParameter::Macro) }
    else if a3 == 0x31 { Some(GsReverbParameter::Character) }
    else if a3 == 0x32 { Some(GsReverbParameter::PreLowpass) }
    else if a3 == 0x33 { Some(GsReverbParameter::Level) }
    else if a3 == 0x34 { Some(GsReverbParameter::Time) }
    else if a3 == 0x35 { Some(GsReverbParameter::DelayFeedback) }
    else if a3 == 0x37 { Some(GsReverbParameter::PreDelayTime) }
    else { None }
}

/// The chorus parameter at an address of the 0x40 01 block.
pub open spec fn spec_gs_chorus_parameter(a3: u8) -> Option<GsChorusParameter> {
    if a3 == 0x38 { Some(GsChorusParameter::Macro) }
    else if a3 == 0x39 { Some(GsChorusParameter::PreLowpass) }
    else if a3 == 0x3a { Some(GsChorusParameter::Level) }
    else if a3 == 0x3b { Some(GsChorusParameter::Feedback) }
    else if a3 == 0x3c { Some(GsChorusParameter::Delay) }
    else if a3 == 0x3d { Some(GsChorusParameter::Rate) }
    else if a3 == 0x3e { Some(GsChorusParameter::Depth) }
    else if a3 == 0x3f { Some(GsChorusParameter::SendToReverb) }
    else if a3 == 0x40 { Some(GsChorusParameter::SendToDelay) }
    else { None }
}

/// The delay parameter at an address of the 0x40 01 block.
pub open spec fn spec_gs_delay_parameter(a3: u8) -> Option<GsDelayParameter> {
    if a3 == 0x50 { Some(GsDelayParameter::Macro) }
    else if a3 == 0x51 { Some(GsDelayParameter::PreLowpass) }
    else if a3 == 0x52 { Some(GsDelayParameter::TimeCenter) }
    else if a3 == 0x53 { Some(GsDelayParameter::TimeRatioLeft) }
    else if a3 == 0x54 { Some(GsDelayParameter::TimeRatioRight) }
    else if a3 == 0x55 { Some(GsDelayParameter::LevelCenter) }
    else if a3 == 0x56 { Some(GsDelayParameter::LevelLeft) }
    else if a3 == 0x57 { Some(GsDelayParameter::LevelRight) }
    else if a3 == 0x58 { Some(GsDelayParameter::Level) }
    else if a3 == 0x59 { Some(GsDelayParameter::Feedback) }
    else if a3 == 0x5a { Some(GsDelayParameter::SendToReverb) }
    else { None }
}

/// Patch common parameters (address 0x40 01 ..): patch name, reverb, chorus and delay.
/// The reverb send to chorus (0x36) is not supported and ignored.
pub open spec fn spec_gs_patch_common(s: Seq<u8>) -> GsCommand {
    let a3 = s[6];
    let v = s[7];
    if a3 == 0x00 {
        GsCommand::PatchName
    } else if a3 == 0x36 {
        GsCommand::Ignored
    } else if spec_gs_reverb_parameter(a3) is Some {
        GsCommand::Reverb { parameter: spec_gs_reverb_parameter(a3)->0, value: v }
    } else if spec_gs_chorus_parameter(a3) is Some {
        GsCommand::Chorus { parameter: spec_gs_chorus_parameter(a3)->0, value: v }
    } else if spec_gs_delay_parameter(a3) is Some {
        GsCommand::Delay { parameter: spec_gs_delay_parameter(a3)->0, value: v }
    } else {
        GsCommand::NotRecognized(GsUnrecognized::RolandGs)
    }
}

/// Patch part tone map parameters (address 0x40 4x ..).
pub open spec fn spec_gs_tone_map(s: Seq<u8>, channel_offset: usize) -> GsCommand {
    let channel = spec_part_target(s, channel_offset);
    let v = s[7];
    if s[6] == 0x00 || s[6] == 0x01 {
        GsCommand::ControllerChange { channel, controller: midi_controllers::BANK_SELECT_LSB, value: v }
    } else if s[6] == 0x22 {
        GsCommand::EfxAssign { channel, enabled: v == 1 }
    } else {
        GsCommand::NotRecognized(GsUnrecognized::RolandGsPatchPart)
    }
}

/// GS messages proper (model 0x42). Only patch parameters (address 0x40 ..) and the
/// GS mode set (address 0x00 .. 0x7f) are handled; an address that none of the
/// blocks claims changes nothing.
pub open spec fn spec_gs_model_42(s: Seq<u8>, channel_offset: usize) -> GsCommand {
    if s[4] == 0x40 || (s[4] == 0x00 && s[6] == 0x7f) {
        if s[5] & 0x10 != 0 {
            spec_gs_part_parameter(s, channel_offset)
        } else if s[5] & 0x20 != 0 {
            spec_gs_part_modulator(s, channel_offset)
        } else if s[5] == 0x00 {
            spec_gs_system(s)
        } else if s[5] == 0x03 {
            spec_gs_efx(s)
        } else if s[5] == 0x01 {
            spec_gs_patch_common(s)
        } else if s[5] >> 4u8 == 4 {
            spec_gs_tone_map(s, channel_offset)
        } else {
            GsCommand::Ignored
        }
    } else {
        GsCommand::NotRecognized(GsUnrecognized::RolandGs)
    }
}

/// The change a Roland message asks for. Only data set (DT1, command 0x12) messages
/// are recognized; model 0x42 is GS proper, 0x45 the Sound Canvas display and 0x16
/// the Roland master volume. Other models are ignored.
pub open spec fn spec_decode_gs(s: Seq<u8>, channel_offset: usize) -> GsCommand {
    if s[3] != 0x12 {
        GsCommand::NotRecognized(GsUnrecognized::RolandGs)
    } else if s[2] == 0x42 {
        spec_gs_model_42(s, channel_offset)
    } else if s[2] == 0x45 {
        if s[4] == 0x10 {
            if s[5] == 0x00 || s[5] == 0x01 {
                GsCommand::Display
            } else {
                GsCommand::NotRecognized(GsUnrecognized::RolandGs)
            }
        } else {
            GsCommand::Ignored
        }
    } else if s[2] == 0x16 {
        if s[4] == 0x10 { GsCommand::RolandMasterVolume { value: s[7] } } else { GsCommand::Ignored }
    } else {
        GsCommand::Ignored
    }
}

fn part_target(syx: &[u8], channel_offset: usize) -> (r: usize)
    requires
        syx@.len() >= 6,
        channel_offset <= usize::MAX - 16,
    ensures
        r == spec_part_target(syx@, channel_offset),
{
    let a2 = syx[5];
    let part = a2 & 0x0f;
    assert(part <= 15) by (bit_vector)
        requires
            part == a2 & 0x0f,
    ;
    gs_part_channel(part) as usize + channel_offset
}

fn decode_part_parameter(syx: &[u8], channel_offset: usize) -> (r: GsCommand)
    requires
        syx@.len() >= 8,
        channel_offset <= usize::MAX - 16,
    ensures
        r == spec_gs_part_parameter(syx@, channel_offset),
{
    let channel = part_target(syx, channel_offset);
    let v = syx[7];
    let a3 = syx[6];
    if a3 == 0x15 {
        GsCommand::SetDrums { channel, is_drums: v > 0 && (syx[5] >> 4u8) > 0 }
    } else if a3 == 0x16 {
        GsCommand::KeyShift { channel, semitones: v as i32 - 64 }
    } else if a3 == 0x1c {
        if v == 0 { GsCommand::RandomPan { channel } } else { GsCommand::Pan { channel, value: v } }
    } else if a3 == 0x21 {
        GsCommand::ControllerChange { channel, controller: midi_controllers::CHORUS_DEPTH, value: v }
    } else if a3 == 0x22 {
        GsCommand::ControllerChange { channel, controller: midi_controllers::REVERB_DEPTH, value: v }
    } else if 0x40 <= a3 && a3 <= 0x4b {
        GsCommand::ScaleTuning { channel, cents: v as i32 - 64 }
    } else {
        GsCommand::NotRecognized(GsUnrecognized::RolandGs)
    }
}

fn mod_source(hi: u8) -> (r: Option<(usize, bool)>)
    ensures
        r == spec_gs_mod_source(hi),
{
    if hi == 0x00 {
        Some((midi_controllers::MODULATION_WHEEL as usize, false))
    } else if hi == 0x10 {
        Some((NON_CC_INDEX_OFFSET + modulator_sources::PITCH_WHEEL as usize, true))
    } else if hi == 0x20 {
        Some((NON_CC_INDEX_OFFSET + modulator_sources::CHANNEL_PRESSURE as usize, false))
    } else if hi == 0x30 {
        Some((NON_CC_INDEX_OFFSET + modulator_sources::POLY_PRESSURE as usize, false))
    } else {
        None
    }
}

fn mod_target(lo: u8, v: u8) -> (r: Option<(u16, i32)>)
    ensures
        r == spec_gs_mod_target(lo, v),
{
    let centered: i32 = v as i32 - 64;
    let raw: i32 = v as i32;
    if lo == 0x00 {
        Some((generator_types::FINE_TUNE, centered * 12800))
    } else if lo == 0x01 {
        Some((generator_types::INITIAL_FILTER_FC, centered * 19200))
    } else if lo == 0x02 {
        Some((generator_types::INITIAL_ATTENUATION, centered * 1920))
    } else if lo == 0x04 {
        Some((generator_types::VIB_LFO_TO_PITCH, raw * 600))
    } else if lo == 0x05 {
        Some((generator_types::VIB_LFO_TO_FILTER_FC, raw * 2400))
    } else if lo == 0x06 {
        Some((generator_types::VIB_LFO_TO_VOLUME, centered * 1920))
    } else if lo == 0x08 {
        Some((generator_types::MOD_LFO_TO_PITCH, raw * 600))
    } else if lo == 0x09 {
        Some((generator_types::MOD_LFO_TO_FILTER_FC, raw * 2400))
    } else if lo == 0x0a {
        Some((generator_types::MOD_LFO_TO_VOLUME, centered * 1920))
    } else {
        None
    }
}

fn decode_part_modulator(syx: &[u8], channel_offset: usize) -> (r: GsCommand)
    requires
        syx@.len() >= 8,
        channel_offset <= usize::MAX - 16,
    ensures
        r == spec_gs_part_modulator(syx@, channel_offset),
{
    let channel = part_target(syx, channel_offset);
    let v = syx[7];
    let hi = syx[6] & 0xf0;
    let lo = syx[6] & 0x0f;
    match mod_source(hi) {
        None => GsCommand::NotRecognized(GsUnrecognized::RolandGs),
        Some((source, is_bipolar)) => {
            if lo == 0 && hi == 0x10 {
                GsCommand::PitchWheelRange { channel, semitones: if v >= 64 { v - 64 } else { 0 } }
            } else {
                match mod_target(lo, v) {
                    None => GsCommand::Ignored,
                    Some((destination, amount_128ths)) => GsCommand::SysExModulator {
                        channel,
                        source,
                        destination,
                        amount_128ths,
                        is_bipolar,
                    },
                }
            }
        },
    }
}

fn decode_system(syx: &[u8]) -> (r: GsCommand)
    requires
        syx@.len() >= 8,
    ensures
        r == spec_gs_system(syx@),
{
    let v = syx[7];
    let a3 = syx[6];
    if a3 == 0x7f {
        if v == 0x00 {
            GsCommand::Reset(MIDISystem::Gs)
        } else if v == 0x7f {
            GsCommand::Reset(MIDISystem::Gm)
        } else {
            GsCommand::Ignored
        }
    } else if a3 == 0x06 {
        GsCommand::MasterPan { value: v }
    } else if a3 == 0x04 {
        GsCommand::MasterVolume { value: v }
    } else if a3 == 0x05 {
        GsCommand::MasterKeyShift { cents: (v as i32 - 64) * 100 }
    } else {
        GsCommand::NotRecognized(GsUnrecognized::RolandGs)
    }
}

fn decode_efx(syx: &[u8]) -> (r: GsCommand)
    requires
        syx@.len() >= 8,
    ensures
        r == spec_gs_efx(syx@),
{
    let a3 = syx[6];
    let data: u8 = if syx[7] > 127 { 127 } else { syx[7] };
    if 0x03 <= a3 && a3 <= 0x16 {
        GsCommand::EfxParameter { address: a3, value: data }
    } else if a3 == 0x00 {
        let lsb: u8 = if syx.len() > 8 { syx[8] } else { 0 };
        GsCommand::EfxType { efx_type: data as u16 * 256 + lsb as u16 }
    } else if a3 == 0x17 {
        GsCommand::EfxSend { target: GsEfxSend::Reverb, value: data }
    } else if a3 == 0x18 {
        GsCommand::EfxSend { target: GsEfxSend::Chorus, value: data }
    } else if a3 == 0x19 {
        GsCommand::EfxSend { target: GsEfxSend::Delay, value: data }
    } else {
        GsCommand::NotRecognized(GsUnrecognized::RolandGsEfx)
    }
}

fn reverb_parameter(a3: u8) -> (r: Option<GsReverbParameter>)
    ensures
        r == spec_gs_reverb_parameter(a3),
{
    match a3 {
        0x30 => Some(GsReverbParameter::Macro),
        0x31 => Some(GsReverbParameter::Character),
        0x32 => Some(GsReverbParameter::PreLowpass),
        0x33 => Some(GsReverbParameter::Level),
        0x34 => Some(GsReverbParameter::Time),
        0x35 => Some(GsReverbParameter::DelayFeedback),
        0x37 => Some(GsReverbParameter::PreDelayTime),
        _ => None,
    }
}

fn chorus_parameter(a3: u8) -> (r: Option<GsChorusParameter>)
    ensures
        r == spec_gs_chorus_parameter(a3),
{
    match a3 {
        0x38 => Some(GsChorusParameter::Macro),
        0x39 => Some(GsChorusParameter::PreLowpass),
        0x3a => Some(GsChorusParameter::Level),
        0x3b => Some(GsChorusParameter::Feedback),
        0x3c => Some(GsChorusParameter::Delay),
        0x3d => Some(GsChorusParameter::Rate),
        0x3e => Some(GsChorusParameter::Depth),
        0x3f => Some(GsChorusParameter::SendToReverb),
        0x40 => Some(GsChorusParameter::SendToDelay),
        _ => None,
    }
}

fn delay_parameter(a3: u8) -> (r: Option<GsDelayParameter>)
    ensures
        r == spec_gs_delay_parameter(a3),
{
    match a3 {
        0x50 => Some(GsDelayParameter::Macro),
        0x51 => Some(GsDelayParameter::PreLowpass),
        0x52 => Some(GsDelayParameter::TimeCenter),
        0x53 => Some(GsDelayParameter::TimeRatioLeft),
        0x54 => Some(GsDelayParameter::TimeRatioRight),
        0x55 => Some(GsDelayParameter::LevelCenter),
        0x56 => Some(GsDelayParameter::LevelLeft),
        0x57 => Some(GsDelayParameter::LevelRight),
        0x58 => Some(GsDelayParameter::Level),
        0x59 => Some(GsDelayParameter::Feedback),
        0x5a => Some(GsDelayParameter::SendToReverb),
        _ => None,
    }
}

fn decode_patch_common(syx: &[u8]) -> (r: GsCommand)
    requires
        syx@.len() >= 8,
    ensures
        r == spec_gs_patch_common(syx@),
{
    let a3 = syx[6];
    let v = syx[7];
    if a3 == 0x00 {
        return GsCommand::PatchName;
    }
    if a3 == 0x36 {
        return GsCommand::Ignored;
    }
    if let Some(parameter) = reverb_parameter(a3) {
        return GsCommand::Reverb { parameter, value: v };
    }
    if let Some(parameter) = chorus_parameter(a3) {
        return GsCommand::Chorus { parameter, value: v };
    }
    if let Some(parameter) = delay_parameter(a3) {
        return GsCommand::Delay { parameter, value: v };
    }
    GsCommand::NotRecognized(GsUnrecognized::RolandGs)
}

fn decode_tone_map(syx: &[u8], channel_offset: usize) -> (r: GsCommand)
    requires
        syx@.len() >= 8,
        channel_offset <= usize::MAX - 16,
    ensures
        r == spec_gs_tone_map(syx@, channel_offset),
{
    let channel = part_target(syx, channel_offset);
    let v = syx[7];
    if syx[6] == 0x00 || syx[6] == 0x01 {
        GsCommand::ControllerChange { channel, controller: midi_controllers::BANK_SELECT_LSB, value: v }
    } else if syx[6] == 0x22 {
        GsCommand::EfxAssign { channel, enabled: v == 1 }
    } else {
        GsCommand::NotRecognized(GsUnrecognized::RolandGsPatchPart)
    }
}

/// Whether every byte that decoding a GS message reads is present.
pub fn is_gs_readable(syx: &[u8]) -> (r: bool)
    ensures
        r == gs_readable(syx@),
{
    if syx.len() < 4 {
        return false;
    }
    if syx[3] != 0x12 {
        return true;
    }
    let model = syx[2];
    if model == 0x42 {
        syx.len() >= 8
    } else if model == 0x45 {
        syx.len() >= 5 && (syx[4] != 0x10 || syx.len() >= 6)
    } else if model == 0x16 {
        syx.len() >= 5 && (syx[4] != 0x10 || syx.len() >= 8)
    } else {
        true
    }
}

/// Decodes a Roland GS system exclusive message (without its leading 0xF0) into the
/// change it asks of the engine; part numbers become channels shifted by
/// `channel_offset` (the port's first channel).
pub fn decode_gs(syx: &[u8], channel_offset: usize) -> (r: GsCommand)
    requires
        gs_readable(syx@),
        channel_offset <= usize::MAX - 16,
    ensures
        r == spec_decode_gs(syx@, channel_offset),
{
    if syx[3] != 0x12 {
        return GsCommand::NotRecognized(GsUnrecognized::RolandGs);
    }
    let model = syx[2];
    if model == 0x42 {
        if syx[4] == 0x40 || (syx[4] == 0x00 && syx[6] == 0x7f) {
            let a2 = syx[5];
            if a2 & 0x10 != 0 {
                decode_part_parameter(syx, channel_offset)
            } else if a2 & 0x20 != 0 {
                decode_part_modulator(syx, channel_offset)
            } else if a2 == 0x00 {
                decode_system(syx)
            } else if a2 == 0x03 {
                decode_efx(syx)
            } else if a2 == 0x01 {
                decode_patch_common(syx)
            } else if a2 >> 4u8 == 4 {
                decode_tone_map(syx, channel_offset)
            } else {
                GsCommand::Ignored
            }
        } else {
            GsCommand::NotRecognized(GsUnrecognized::RolandGs)
        }
    } else if model == 0x45 {
        if syx[4] == 0x10 {
            if syx[5] == 0x00 || syx[5] == 0x01 {
                GsCommand::Display
            } else {
                GsCommand::NotRecognized(GsUnrecognized::RolandGs)
            }
        } else {
            GsCommand::Ignored
        }
    } else if model == 0x16 {
        if syx[4] == 0x10 { GsCommand::RolandMasterVolume { value: syx[7] } } else { GsCommand::Ignored }
    } else {
        GsCommand::Ignored
    }
}

/// The octave scale tuning a GS scale-tuning message carries: up to twelve data
/// bytes from byte 7 on (the message minus its first seven bytes, checksum and end
/// byte), each minus 64 cents and truncated to a signed byte; missing entries are 0.
pub open spec fn spec_gs_scale_tuning(s: Seq<u8>) -> Seq<i8> {
    let n: int = if s.len() >= 9 { s.len() - 9 } else { 0 };
    Seq::new(12, |i: int| if i < n { (s[i + 7] - 64) as i8 } else { 0i8 })
}

/// The octave scale tuning of a GS scale-tuning message (see [`spec_gs_scale_tuning`]).
pub fn gs_scale_tuning(syx: &[u8]) -> (r: Vec<i8>)
    ensures
        r@ == spec_gs_scale_tuning(syx@),
{
    let n: usize = if syx.len() >= 9 { syx.len() - 9 } else { 0 };
    let mut out: Vec<i8> = Vec::new();
    let mut i: usize = 0;
    while i < 12
        invariant
            i <= 12,
            n == (if syx@.len() >= 9 { syx@.len() - 9 } else { 0 }),
            out@.len() == i,
            forall|j: int| 0 <= j < i ==> out@[j] == spec_gs_scale_tuning(syx@)[j],
        decreases 12 - i,
    {
        let t: i8 = if i < n { #[verifier::truncate] ((syx[i + 7] as i16 - 64) as i8) } else { 0 };
        out.push(t);
        i = i + 1;
    }
    proof {
        assert(out@ =~= spec_gs_scale_tuning(syx@));
    }
    out
}

/// The sum of some bytes.
pub open spec fn byte_sum(s: Seq<u8>) -> int
    decreases s.len(),
{
    if s.len() == 0 { 0 } else { byte_sum(s.drop_last()) + s.last() }
}

/// The Roland checksum of address and data bytes: what brings their sum to a
/// multiple of 128.
pub open spec fn gs_checksum(body: Seq<u8>) -> u8 {
    ((128 - byte_sum(body) % 128) % 128) as u8
}

/// A Roland GS data set message to the GS model (without the leading 0xF0):
/// manufacturer 0x41, device 0x10, model 0x42, command 0x12, the three address
/// bytes, the data, the checksum and 0xF7.
pub open spec fn spec_gs_data(a1: u8, a2: u8, a3: u8, data: Seq<u8>) -> Seq<u8> {
    let body = seq![a1, a2, a3] + data;
    seq![0x41u8, 0x10u8, 0x42u8, 0x12u8] + body + seq![gs_checksum(body), 0xF7u8]
}

/// Builds a Roland GS data set message (see [`spec_gs_data`]).
pub fn gs_data(a1: u8, a2: u8, a3: u8, data: &[u8]) -> (r: Vec<u8>)
    requires
        data@.len() <= usize::MAX - 16,
    ensures
        r@ == spec_gs_data(a1, a2, a3, data@),
{
    let mut out: Vec<u8> = Vec::new();
    out.push(0x41);
    out.push(0x10);
    out.push(0x42);
    out.push(0x12);
    out.push(a1);
    out.push(a2);
    out.push(a3);
    let ghost body0 = seq![a1, a2, a3];
    proof {
        reveal_with_fuel(byte_sum, 4);
        assert(body0.drop_last().drop_last().drop_last() =~= Seq::<u8>::empty());
        assert(body0.drop_last().drop_last() =~= seq![a1]);
        assert(body0.drop_last() =~= seq![a1, a2]);
    }
    let mut sum: u32 = ((a1 as u32 + a2 as u32 + a3 as u32) % 128) as u32;
    let mut i: usize = 0;
    while i < data.len()
        invariant
            i <= data@.len(),
            sum < 128,
            sum == byte_sum(body0 + data@.subrange(0, i as int)) % 128,
            out@ == seq![0x41u8, 0x10u8, 0x42u8, 0x12u8] + body0 + data@.subrange(0, i as int),
        decreases data@.len() - i,
    {
        let b = data[i];
        proof {
            let prev = body0 + data@.subrange(0, i as int);
            let next = body0 + data@.subrange(0, i + 1);
            assert(next.drop_last() =~= prev);
            assert(next.last() == b);
            lemma_add_mod_noop(byte_sum(prev), b as int, 128);
            assert((b as int) % 128 + 0 == b as int % 128);
        }
        sum = (sum + b as u32) % 128;
        out.push(b);
        i = i + 1;
        proof {
            assert(out@ =~= seq![0x41u8, 0x10u8, 0x42u8, 0x12u8] + body0 + data@.subrange(0, i as int));
        }
    }
    let checksum: u8 = ((128 - sum) % 128) as u8;
    out.push(checksum);
    out.push(0xF7);
    proof {
        assert(data@.subrange(0, data@.len() as int) =~= data@);
        assert(out@ =~= spec_gs_data(a1, a2, a3, data@));
    }
    out
}

/// The checksum completes the address and data bytes to a multiple of 128.
pub proof fn lemma_gs_checksum_completes(body: Seq<u8>)
    ensures
        (byte_sum(body.push(gs_checksum(body)))) % 128 == 0,
        gs_checksum(body) < 128,
{
    let c = gs_checksum(body);
    assert(body.push(c).drop_last() =~= body);
    let s = byte_sum(body);
    assert(s >= 0) by {
        lemma_byte_sum_nonnegative(body);
    }
    assert((s + (128 - s % 128) % 128) % 128 == 0) by (nonlinear_arith)
        requires
            s >= 0,
    ;
}

proof fn lemma_byte_sum_nonnegative(s: Seq<u8>)
    ensures
        byte_sum(s) >= 0,
    decreases s.len(),
{
    if s.len() > 0 {
        lemma_byte_sum_nonnegative(s.drop_last());
    }
}

/// The GS effect address map (data set to 40 01 xx): 30-37 are the reverb (macro,
/// character, pre-lowpass, level, time, delay feedback, 36 unused, pre-delay time),
/// 38-40 the chorus (macro, pre-lowpass, level, feedback, delay, rate, depth, send
/// to reverb, send to delay) and 50-5A the delay (macro, pre-lowpass, time centre,
/// time ratios left and right, levels centre, left and right, level, feedback, send
/// to reverb). The data byte is the parameter's value.
pub proof fn lemma_gs_effect_address_map(s: Seq<u8>, channel_offset: usize)
    requires
        s.len() >= 8,
        s[2] == 0x42,
        s[3] == 0x12,
        s[4] == 0x40,
        s[5] == 0x01,
    ensures
        s[6] == 0x30 ==> spec_decode_gs(s, channel_offset) == (GsCommand::Reverb { parameter: GsReverbParameter::Macro, value: s[7] }),
        s[6] == 0x31 ==> spec_decode_gs(s, channel_offset) == (GsCommand::Reverb { parameter: GsReverbParameter::Character, value: s[7] }),
        s[6] == 0x32 ==> spec_decode_gs(s, channel_offset) == (GsCommand::Reverb { parameter: GsReverbParameter::PreLowpass, value: s[7] }),
        s[6] == 0x33 ==> spec_decode_gs(s, channel_offset) == (GsCommand::Reverb { parameter: GsReverbParameter::Level, value: s[7] }),
        s[6] == 0x34 ==> spec_decode_gs(s, channel_offset) == (GsCommand::Reverb { parameter: GsReverbParameter::Time, value: s[7] }),
        s[6] == 0x35 ==> spec_decode_gs(s, channel_offset) == (GsCommand::Reverb { parameter: GsReverbParameter::DelayFeedback, value: s[7] }),
        s[6] == 0x37 ==> spec_decode_gs(s, channel_offset) == (GsCommand::Reverb { parameter: GsReverbParameter::PreDelayTime, value: s[7] }),
        s[6] == 0x36 ==> spec_decode_gs(s, channel_offset) == GsCommand::Ignored,
        s[6] == 0x38 ==> spec_decode_gs(s, channel_offset) == (GsCommand::Chorus { parameter: GsChorusParameter::Macro, value: s[7] }),
        s[6] == 0x39 ==> spec_decode_gs(s, channel_offset) == (GsCommand::Chorus { parameter: GsChorusParameter::PreLowpass, value: s[7] }),
        s[6] == 0x3a ==> spec_decode_gs(s, channel_offset) == (GsCommand::Chorus { parameter: GsChorusParameter::Level, value: s[7] }),
        s[6] == 0x3b ==> spec_decode_gs(s, channel_offset) == (GsCommand::Chorus { parameter: GsChorusParameter::Feedback, value: s[7] }),
        s[6] == 0x3c ==> spec_decode_gs(s, channel_offset) == (GsCommand::Chorus { parameter: GsChorusParameter::Delay, value: s[7] }),
        s[6] == 0x3d ==> spec_decode_gs(s, channel_offset) == (GsCommand::Chorus { parameter: GsChorusParameter::Rate, value: s[7] }),
        s[6] == 0x3e ==> spec_decode_gs(s, channel_offset) == (GsCommand::Chorus { parameter: GsChorusParameter::Depth, value: s[7] }),
        s[6] == 0x3f ==> spec_decode_gs(s, channel_offset) == (GsCommand::Chorus { parameter: GsChorusParameter::SendToReverb, value: s[7] }),
        s[6] == 0x40 ==> spec_decode_gs(s, channel_offset) == (GsCommand::Chorus { parameter: GsChorusParameter::SendToDelay, value: s[7] }),
        s[6] == 0x50 ==> spec_decode_gs(s, channel_offset) == (GsCommand::Delay { parameter: GsDelayParameter::Macro, value: s[7] }),
        s[6] == 0x51 ==> spec_decode_gs(s, channel_offset) == (GsCommand::Delay { parameter: GsDelayParameter::PreLowpass, value: s[7] }),
        s[6] == 0x52 ==> spec_decode_gs(s, channel_offset) == (GsCommand::Delay { parameter: GsDelayParameter::TimeCenter, value: s[7] }),
        s[6] == 0x53 ==> spec_decode_gs(s, channel_offset) == (GsCommand::Delay { parameter: GsDelayParameter::TimeRatioLeft, value: s[7] }),
        s[6] == 0x54 ==> spec_decode_gs(s, channel_offset) == (GsCommand::Delay { parameter: GsDelayParameter::TimeRatioRight, value: s[7] }),
        s[6] == 0x55 ==> spec_decode_gs(s, channel_offset) == (GsCommand::Delay { parameter: GsDelayParameter::LevelCenter, value: s[7] }),
        s[6] == 0x56 ==> spec_decode_gs(s, channel_offset) == (GsCommand::Delay { parameter: GsDelayParameter::LevelLeft, value: s[7] }),
        s[6] == 0x57 ==> spec_decode_gs(s, channel_offset) == (GsCommand::Delay { parameter: GsDelayParameter::LevelRight, value: s[7] }),
        s[6] == 0x58 ==> spec_decode_gs(s, channel_offset) == (GsCommand::Delay { parameter: GsDelayParameter::Level, value: s[7] }),
        s[6] == 0x59 ==> spec_decode_gs(s, channel_offset) == (GsCommand::Delay { parameter: GsDelayParameter::Feedback, value: s[7] }),
        s[6] == 0x5a ==> spec_decode_gs(s, channel_offset) == (GsCommand::Delay { parameter: GsDelayParameter::SendToReverb, value: s[7] }),
{
    let a2 = s[5];
    assert(a2 & 0x10 == 0 && a2 & 0x20 == 0) by (bit_vector)
        requires
            a2 == 0x01,
    ;
}

/// The GS part parameters (data set to 40 1p xx, part p): the part is channel 9 for
/// p = 0, p - 1 for p = 1..9 and p itself above (shifted by the port's first channel).
/// 15 sets the part to drums when the value is non-zero, 16 shifts its keys by
/// value - 64 semitones, 1C pans it (0 is random pan), 21 and 22 are control changes
/// of chorus (93) and reverb (91) depth, and 40-4B set its scale tuning to
/// value - 64 cents.
pub proof fn lemma_gs_part_parameter_map(s: Seq<u8>, channel_offset: usize)
    requires
        s.len() >= 8,
        s[2] == 0x42,
        s[3] == 0x12,
        s[4] == 0x40,
        0x10 <= s[5] <= 0x1f,
        channel_offset <= usize::MAX - 16,
    ensures
        ({
            let p = s[5] - 0x10;
            let channel = ((if p == 0 { 9 } else if p <= 9 { p - 1 } else { p }) + channel_offset) as usize;
            let v = s[7];
            let r = spec_decode_gs(s, channel_offset);
            &&& s[6] == 0x15 ==> r == (GsCommand::SetDrums { channel, is_drums: v > 0 })
            &&& s[6] == 0x16 ==> r == (GsCommand::KeyShift { channel, semitones: (v - 64) as i32 })
            &&& s[6] == 0x1c && v == 0 ==> r == (GsCommand::RandomPan { channel })
            &&& s[6] == 0x1c && v != 0 ==> r == (GsCommand::Pan { channel, value: v })
            &&& s[6] == 0x21 ==> r == (GsCommand::ControllerChange { channel, controller: 93, value: v })
            &&& s[6] == 0x22 ==> r == (GsCommand::ControllerChange { channel, controller: 91, value: v })
            &&& 0x40 <= s[6] <= 0x4b ==> r == (GsCommand::ScaleTuning { channel, cents: (v - 64) as i32 })
        }),
{
    let a2 = s[5];
    assert(a2 & 0x10 != 0 && a2 & 0x0f == a2 - 16 && (a2 >> 4u8) == 1) by (bit_vector)
        requires
            0x10 <= a2 <= 0x1f,
    ;
}

} // verus!
