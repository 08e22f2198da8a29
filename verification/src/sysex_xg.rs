//! Decoding of Yamaha XG system exclusive messages. The message is given without its
//! leading 0xF0: byte 2 is the model (0x4C for XG), bytes 3-5 the address and byte 6
//! the first data byte.
use vstd::prelude::*;
use crate::midi_controllers as cc;
use crate::midi_system::{spec_is_system_xg, BankSelectHacks, MIDISystem};

verus! {

/// The effect block an unsupported XG effect parameter belongs to.
#[derive(Clone, Copy, Debug, PartialEq, Eq, Structural)]
pub enum XgEffectBlock {
    Reverb,
    Chorus,
    Variation,
}

/// The change an XG message asks of the engine.
#[derive(Clone, Copy, Debug, PartialEq, Eq, Structural)]
pub enum XgCommand {
    /// Not an XG message ("Yamaha").
    NotYamahaXg,
    /// An XG message this engine does not know ("Yamaha XG").
    NotRecognized,
    /// A message that changes nothing.
    Ignored,
    /// Master tune, in tenths of a cent.
    MasterTune { tenth_cents: i32 },
    /// Master volume, 0-127.
    MasterVolume { value: u8 },
    /// Master transpose, in semitones.
    MasterTranspose { semitones: i32 },
    /// Resets all controllers to XG.
    Reset,
    /// An effect parameter the engine does not support (it is logged).
    UnsupportedEffect { block: XgEffectBlock, parameter: u8 },
    /// A control change on a channel.
    ControllerChange { channel: usize, controller: u8, value: u8 },
    /// A program change on a channel.
    ProgramChange { channel: usize, program: u8 },
    /// Part mode: the channel becomes a drum channel (its bank MSB set to the
    /// system's drum bank, when there is one, and LSB to 0) or a melodic one (bank 0,
    /// LSB 0); then its current program is selected again.
    PartMode { channel: usize, is_drum: bool, drum_bank: Option<u8> },
    /// Sets the channel's key shift custom controller, in semitones.
    NoteShift { channel: usize, semitones: i32 },
    /// Turns random panning on for the channel.
    RandomPan { channel: usize },
    /// A part setup parameter the engine does not support (it is logged).
    UnsupportedPartSetup { channel: usize, parameter: u8 },
    /// Display letters or bitmap.
    Display,
}

/// The XG master tune value: four nibbles from bytes 6-9.
pub open spec fn spec_xg_tune(s: Seq<u8>) -> u32 {
    ((((s[6] & 15) as u32) << 12u32) | (((s[7] & 15) as u32) << 8u32) | (((s[8] & 15) as u32) << 4u32)
        | ((s[9] & 15) as u32))
}

/// Whether every byte the XG handler reads is present, given the MIDI system, the
/// channel count and the port offset.
pub open spec fn xg_readable(s: Seq<u8>, system: MIDISystem, channel_count: nat, channel_offset: usize) -> bool {
    &&& s.len() >= 3
    &&& s[2] == 0x4c ==> {
        &&& s.len() >= 5
        &&& s[3] == 0x00 && s[4] == 0x00 ==> s.len() >= 6 && (s[5] == 0x00 ==> s.len() >= 10)
            && (s[5] == 0x04 || s[5] == 0x05 || s[5] == 0x06 ==> s.len() >= 7)
        &&& s[3] == 0x02 && s[4] == 0x01 ==> s.len() >= 6
        &&& s[3] == 0x08 && spec_is_system_xg(system) && s[4] + channel_offset < channel_count ==> s.len() >= 7
    }
}

/// The controller an XG part setup parameter drives, if it is a plain control change.
pub open spec fn spec_xg_part_controller(parameter: u8) -> Option<u8> {
    if parameter == 0x01 { Some(cc::BANK_SELECT) }
    else if parameter == 0x02 { Some(cc::BANK_SELECT_LSB) }
    else if parameter == 0x0b { Some(cc::MAIN_VOLUME) }
    else if parameter == 0x11 { Some(cc::MAIN_VOLUME) }
    else if parameter == 0x12 { Some(cc::CHORUS_DEPTH) }
    else if parameter == 0x13 { Some(cc::REVERB_DEPTH) }
    else if parameter == 0x15 { Some(cc::VIBRATO_RATE) }
    else if parameter == 0x16 { Some(cc::VIBRATO_DEPTH) }
    else if parameter == 0x17 { Some(cc::VIBRATO_DELAY) }
    else if parameter == 0x18 { Some(cc::BRIGHTNESS) }
    else if parameter == 0x19 { Some(cc::FILTER_RESONANCE) }
    else if parameter == 0x1a { Some(cc::ATTACK_TIME) }
    else if parameter == 0x1b { Some(cc::DECAY_TIME) }
    else if parameter == 0x1c { Some(cc::RELEASE_TIME) }
    else { None }
}

/// The drum bank of a MIDI system: 120 for GM2, 127 for XG, none otherwise.
pub open spec fn spec_drum_bank(system: MIDISystem) -> Option<u8> {
    match system {
        MIDISystem::Gm2 => Some(120u8),
        MIDISystem::Xg => Some(127u8),
        _ => None,
    }
}

/// An XG part setup message (address 08 cc pp), for a channel the engine has.
pub open spec fn spec_xg_part(s: Seq<u8>, system: MIDISystem, drum_channels: Seq<bool>, channel: usize) -> XgCommand {
    let parameter = s[5];
    let value = s[6];
    if parameter == 0x03 {
        XgCommand::ProgramChange { channel, program: value }
    } else if parameter == 0x07 {
        XgCommand::PartMode { channel, is_drum: value != 0, drum_bank: spec_drum_bank(system) }
    } else if parameter == 0x08 {
        if drum_channels[channel as int] {
            XgCommand::Ignored
        } else {
            XgCommand::NoteShift { channel, semitones: (value - 64) as i32 }
        }
    } else if parameter == 0x0e && value == 0 {
        XgCommand::RandomPan { channel }
    } else if parameter == 0x0e {
        XgCommand::ControllerChange { channel, controller: cc::PAN, value }
    } else if spec_xg_part_controller(parameter) is Some {
        XgCommand::ControllerChange { channel, controller: spec_xg_part_controller(parameter)->0, value }
    } else {
        XgCommand::UnsupportedPartSetup { channel, parameter }
    }
}

/// The change an XG message asks for. `drum_channels` tells, for each channel the
/// engine has, whether it is a drum channel. Part setup is only obeyed when the
/// system is XG (or GM2) and the channel exists; note shift is skipped on drum
/// channels.
pub open spec fn spec_decode_xg(
    s: Seq<u8>,
    channel_offset: usize,
    system: MIDISystem,
    drum_channels: Seq<bool>,
) -> XgCommand {
    if s[2] != 0x4c {
        XgCommand::NotYamahaXg
    } else if s[3] == 0x00 && s[4] == 0x00 {
        if s[5] == 0x00 {
            XgCommand::MasterTune { tenth_cents: (spec_xg_tune(s) - 1024) as i32 }
        } else if s[5] == 0x04 {
            XgCommand::MasterVolume { value: s[6] }
        } else if s[5] == 0x05 {
            XgCommand::MasterVolume { value: if s[6] > 127 { 0u8 } else { (127 - s[6]) as u8 } }
        } else if s[5] == 0x06 {
            XgCommand::MasterTranspose { semitones: (s[6] - 64) as i32 }
        } else if s[5] == 0x7e {
            XgCommand::Reset
        } else {
            XgCommand::Ignored
        }
    } else if s[3] == 0x02 && s[4] == 0x01 {
        let e = s[5];
        XgCommand::UnsupportedEffect {
            block: if e <= 0x15 { XgEffectBlock::Reverb } else if e <= 35 { XgEffectBlock::Chorus } else { XgEffectBlock::Variation },
            parameter: e,
        }
    } else if s[3] == 0x08 {
        if !spec_is_system_xg(system) || s[4] + channel_offset >= drum_channels.len() {
            XgCommand::Ignored
        } else {
            spec_xg_part(s, system, drum_channels, (s[4] + channel_offset) as usize)
        }
    } else if s[3] == 0x06 || s[3] == 0x07 {
        XgCommand::Display
    } else if spec_is_system_xg(system) {
        XgCommand::NotRecognized
    } else {
        XgCommand::Ignored
    }
}

fn xg_part_controller(parameter: u8) -> (r: Option<u8>)
    ensures
        r == spec_xg_part_controller(parameter),
{
    match parameter {
        0x01 => Some(cc::BANK_SELECT),
        0x02 => Some(cc::BANK_SELECT_LSB),
        0x0b => Some(cc::MAIN_VOLUME),
        0x11 => Some(cc::MAIN_VOLUME),
        0x12 => Some(cc::CHORUS_DEPTH),
        0x13 => Some(cc::REVERB_DEPTH),
        0x15 => Some(cc::VIBRATO_RATE),
        0x16 => Some(cc::VIBRATO_DEPTH),
        0x17 => Some(cc::VIBRATO_DELAY),
        0x18 => Some(cc::BRIGHTNESS),
        0x19 => Some(cc::FILTER_RESONANCE),
        0x1a => Some(cc::ATTACK_TIME),
        0x1b => Some(cc::DECAY_TIME),
        0x1c => Some(cc::RELEASE_TIME),
        _ => None,
    }
}

fn xg_tune(syx: &[u8]) -> (r: u32)
    requires
        syx@.len() >= 10,
    ensures
        r == spec_xg_tune(syx@),
        r <= 65535,
{
    let (a, b, c, d) = (syx[6], syx[7], syx[8], syx[9]);
    let r = (((a & 15) as u32) << 12u32) | (((b & 15) as u32) << 8u32) | (((c & 15) as u32) << 4u32)
        | ((d & 15) as u32);
    assert(r <= 65535) by (bit_vector)
        requires
            r == (((a & 15) as u32) << 12u32) | (((b & 15) as u32) << 8u32) | (((c & 15) as u32) << 4u32)
                | ((d & 15) as u32),
    ;
    r
}

/// Whether every byte that decoding an XG message reads is present, for an engine
/// with `channel_count` channels.
pub fn is_xg_readable(syx: &[u8], system: MIDISystem, channel_count: usize, channel_offset: usize) -> (r: bool)
    ensures
        r == xg_readable(syx@, system, channel_count as nat, channel_offset),
{
    let len = syx.len();
    if len < 3 {
        return false;
    }
    if syx[2] != 0x4c {
        return true;
    }
    if len < 5 {
        return false;
    }
    let a1 = syx[3];
    let a2 = syx[4];
    if a1 == 0x00 && a2 == 0x00 {
        return len >= 6 && (syx[5] != 0x00 || len >= 10)
            && (!(syx[5] == 0x04 || syx[5] == 0x05 || syx[5] == 0x06) || len >= 7);
    }
    if a1 == 0x02 && a2 == 0x01 {
        return len >= 6;
    }
    if a1 == 0x08 && BankSelectHacks::is_system_xg(system) && (a2 as usize) < channel_count
        && channel_offset < channel_count - (a2 as usize) {
        return len >= 7;
    }
    true
}

/// Decodes an XG system exclusive message (without its leading 0xF0) into the change
/// it asks of the engine. `drum_channels` has one entry per channel of the engine.
pub fn decode_xg(syx: &[u8], channel_offset: usize, system: MIDISystem, drum_channels: &[bool]) -> (r: XgCommand)
    requires
        xg_readable(syx@, system, drum_channels@.len(), channel_offset),
        channel_offset <= usize::MAX - 256,
    ensures
        r == spec_decode_xg(syx@, channel_offset, system, drum_channels@),
{
    if syx[2] != 0x4c {
        return XgCommand::NotYamahaXg;
    }
    let a1 = syx[3];
    let a2 = syx[4];
    if a1 == 0x00 && a2 == 0x00 {
        let a3 = syx[5];
        if a3 == 0x00 {
            XgCommand::MasterTune { tenth_cents: xg_tune(syx) as i32 - 1024 }
        } else if a3 == 0x04 {
            XgCommand::MasterVolume { value: syx[6] }
        } else if a3 == 0x05 {
            XgCommand::MasterVolume { value: 127u8.saturating_sub(syx[6]) }
        } else if a3 == 0x06 {
            XgCommand::MasterTranspose { semitones: syx[6] as i32 - 64 }
        } else if a3 == 0x7e {
            XgCommand::Reset
        } else {
            XgCommand::Ignored
        }
    } else if a1 == 0x02 && a2 == 0x01 {
        let e = syx[5];
        let block = if e <= 0x15 {
            XgEffectBlock::Reverb
        } else if e <= 35 {
            XgEffectBlock::Chorus
        } else {
            XgEffectBlock::Variation
        };
        XgCommand::UnsupportedEffect { block, parameter: e }
    } else if a1 == 0x08 {
        if !BankSelectHacks::is_system_xg(system) {
            return XgCommand::Ignored;
        }
        let channel = a2 as usize + channel_offset;
        if channel >= drum_channels.len() {
            return XgCommand::Ignored;
        }
        let parameter = syx[5];
        let value = syx[6];
        if parameter == 0x03 {
            XgCommand::ProgramChange { channel, program: value }
        } else if parameter == 0x07 {
            XgCommand::PartMode { channel, is_drum: value != 0, drum_bank: BankSelectHacks::get_drum_bank(system) }
        } else if parameter == 0x08 {
            if drum_channels[channel] {
                XgCommand::Ignored
            } else {
                XgCommand::NoteShift { channel, semitones: value as i32 - 64 }
            }
        } else if parameter == 0x0e && value == 0 {
            XgCommand::RandomPan { channel }
        } else if parameter == 0x0e {
            XgCommand::ControllerChange { channel, controller: cc::PAN, value }
        } else {
            match xg_part_controller(parameter) {
                Some(controller) => XgCommand::ControllerChange { channel, controller, value },
                None => XgCommand::UnsupportedPartSetup { channel, parameter },
            }
        }
    } else if a1 == 0x06 || a1 == 0x07 {
        XgCommand::Display
    } else if BankSelectHacks::is_system_xg(system) {
        XgCommand::NotRecognized
    } else {
        XgCommand::Ignored
    }
}

/// The XG part setup parameters (08 pp nn on a channel the engine has, in XG or
/// GM2): 03 is a program change, 07 the part mode (drums when non-zero, with the
/// system's drum bank), 08 a note shift of nn - 64 (ignored on drum channels), and
/// these are control changes: 01 bank select (0), 02 bank select LSB (32), 0B volume
/// (7), 11 dry level (volume, 7), 12 chorus send (93), 13 reverb send (91), 15-17
/// vibrato rate, depth and delay (76-78), 18 filter cutoff (74), 19 resonance (71),
/// 1A attack (73), 1B decay (75), 1C release (72), and 0E pan (10; 0 is random pan).
/// The data byte is the controller value, the part the channel (shifted by the port).
pub proof fn lemma_xg_part_controller_map(
    s: Seq<u8>,
    channel_offset: usize,
    system: MIDISystem,
    drum_channels: Seq<bool>,
)
    requires
        s.len() >= 7,
        s[2] == 0x4c,
        s[3] == 0x08,
        system == MIDISystem::Xg || system == MIDISystem::Gm2,
        s[4] + channel_offset < drum_channels.len(),
    ensures
        s[5] == 0x03 ==> spec_decode_xg(s, channel_offset, system, drum_channels)
            == (XgCommand::ProgramChange { channel: (s[4] + channel_offset) as usize, program: s[6] }),
        s[5] == 0x07 ==> spec_decode_xg(s, channel_offset, system, drum_channels) == (XgCommand::PartMode {
            channel: (s[4] + channel_offset) as usize,
            is_drum: s[6] != 0,
            drum_bank: Some(if system == MIDISystem::Xg { 127u8 } else { 120u8 }),
        }),
        s[5] == 0x08 && !drum_channels[((s[4] + channel_offset) as usize) as int] ==> spec_decode_xg(s, channel_offset, system, drum_channels)
            == (XgCommand::NoteShift { channel: (s[4] + channel_offset) as usize, semitones: (s[6] - 64) as i32 }),
        s[5] == 0x08 && drum_channels[((s[4] + channel_offset) as usize) as int] ==> spec_decode_xg(s, channel_offset, system, drum_channels)
            == XgCommand::Ignored,
        s[5] == 0x01 ==> spec_decode_xg(s, channel_offset, system, drum_channels)
            == (XgCommand::ControllerChange { channel: (s[4] + channel_offset) as usize, controller: 0u8, value: s[6] }),
        s[5] == 0x02 ==> spec_decode_xg(s, channel_offset, system, drum_channels)
            == (XgCommand::ControllerChange { channel: (s[4] + channel_offset) as usize, controller: 32u8, value: s[6] }),
        s[5] == 0x0b ==> spec_decode_xg(s, channel_offset, system, drum_channels)
            == (XgCommand::ControllerChange { channel: (s[4] + channel_offset) as usize, controller: 7u8, value: s[6] }),
        s[5] == 0x11 ==> spec_decode_xg(s, channel_offset, system, drum_channels)
            == (XgCommand::ControllerChange { channel: (s[4] + channel_offset) as usize, controller: 7u8, value: s[6] }),
        s[5] == 0x12 ==> spec_decode_xg(s, channel_offset, system, drum_channels)
            == (XgCommand::ControllerChange { channel: (s[4] + channel_offset) as usize, controller: 93u8, value: s[6] }),
        s[5] == 0x13 ==> spec_decode_xg(s, channel_offset, system, drum_channels)
            == (XgCommand::ControllerChange { channel: (s[4] + channel_offset) as usize, controller: 91u8, value: s[6] }),
        s[5] == 0x15 ==> spec_decode_xg(s, channel_offset, system, drum_channels)
            == (XgCommand::ControllerChange { channel: (s[4] + channel_offset) as usize, controller: 76u8, value: s[6] }),
        s[5] == 0x16 ==> spec_decode_xg(s, channel_offset, system, drum_channels)
            == (XgCommand::ControllerChange { channel: (s[4] + channel_offset) as usize, controller: 77u8, value: s[6] }),
        s[5] == 0x17 ==> spec_decode_xg(s, channel_offset, system, drum_channels)
            == (XgCommand::ControllerChange { channel: (s[4] + channel_offset) as usize, controller: 78u8, value: s[6] }),
        s[5] == 0x18 ==> spec_decode_xg(s, channel_offset, system, drum_channels)
            == (XgCommand::ControllerChange { channel: (s[4] + channel_offset) as usize, controller: 74u8, value: s[6] }),
        s[5] == 0x19 ==> spec_decode_xg(s, channel_offset, system, drum_channels)
            == (XgCommand::ControllerChange { channel: (s[4] + channel_offset) as usize, controller: 71u8, value: s[6] }),
        s[5] == 0x1a ==> spec_decode_xg(s, channel_offset, system, drum_channels)
            == (XgCommand::ControllerChange { channel: (s[4] + channel_offset) as usize, controller: 73u8, value: s[6] }),
        s[5] == 0x1b ==> spec_decode_xg(s, channel_offset, system, drum_channels)
            == (XgCommand::ControllerChange { channel: (s[4] + channel_offset) as usize, controller: 75u8, value: s[6] }),
        s[5] == 0x1c ==> spec_decode_xg(s, channel_offset, system, drum_channels)
            == (XgCommand::ControllerChange { channel: (s[4] + channel_offset) as usize, controller: 72u8, value: s[6] }),
        s[5] == 0x0e && s[6] != 0 ==> spec_decode_xg(s, channel_offset, system, drum_channels)
            == (XgCommand::ControllerChange { channel: (s[4] + channel_offset) as usize, controller: 10u8, value: s[6] }),
        s[5] == 0x0e && s[6] == 0 ==> spec_decode_xg(s, channel_offset, system, drum_channels)
            == (XgCommand::RandomPan { channel: (s[4] + channel_offset) as usize }),
{
}

} // verus!
