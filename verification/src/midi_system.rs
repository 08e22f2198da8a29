//! The MIDI system (GM, GM2, GS, XG) and the bank-select conventions that depend on it.
use vstd::prelude::*;

verus! {

/// The MIDI system used by the synthesizer for bank selects and system exclusives.
#[derive(Clone, Copy, Debug, PartialEq, Eq, Structural)]
pub enum MIDISystem {
    Gm,
    Gm2,
    Gs,
    Xg,
}

/// Alternative name of [`MIDISystem`] used by the channel and sound bank code.
pub type SynthSystem = MIDISystem;

impl Default for MIDISystem {
    /// GS is the default bank select and system exclusive mode.
    fn default() -> (r: Self)
        ensures
            r == MIDISystem::Gs,
    {
        MIDISystem::Gs
    }
}

/// Bank number used by GM2 for melodic presets.
pub const GM2_DEFAULT_BANK: u8 = 121;

/// Bank MSB that XG and GM2 use for sound effect voices.
pub const XG_SFX_VOICE: u8 = 64;

/// True for the bank MSB values that select XG/GM2 drum kits (120 and 127).
pub open spec fn spec_is_xg_drums(bank_msb: u8) -> bool {
    bank_msb == 120 || bank_msb == 127
}

/// True for the systems that use the XG bank conventions (XG and GM2).
pub open spec fn spec_is_system_xg(system: MIDISystem) -> bool {
    system == MIDISystem::Xg || system == MIDISystem::Gm2
}

/// Bank-select conventions of the MIDI systems.
pub struct BankSelectHacks;

impl BankSelectHacks {
    /// The melodic bank MSB a channel is reset to: 121 for GM2, 0 otherwise.
    pub fn get_default_bank(system: MIDISystem) -> (r: u8)
        ensures
            r == (if system == MIDISystem::Gm2 { GM2_DEFAULT_BANK } else { 0u8 }),
    {
        if system == MIDISystem::Gm2 {
            GM2_DEFAULT_BANK
        } else {
            0
        }
    }

    /// The bank MSB of the drum kits: 120 for GM2, 127 for XG, none for GM and GS.
    pub fn get_drum_bank(system: MIDISystem) -> (r: Option<u8>)
        ensures
            r == (match system {
                MIDISystem::Gm2 => Some(120u8),
                MIDISystem::Xg => Some(127u8),
                _ => None,
            }),
    {
        match system {
            MIDISystem::Gm2 => Some(120),
            MIDISystem::Xg => Some(127),
            _ => None,
        }
    }

    /// True when the bank MSB selects an XG drum kit.
    pub fn is_xg_drums(bank_msb: u8) -> (r: bool)
        ensures
            r == spec_is_xg_drums(bank_msb),
    {
        bank_msb == 120 || bank_msb == 127
    }

    /// True when the bank MSB is meaningful in XG: drum kits, SFX voices or the GM2 bank.
    pub fn is_valid_xg_msb(bank_msb: u8) -> (r: bool)
        ensures
            r == (spec_is_xg_drums(bank_msb) || bank_msb == XG_SFX_VOICE || bank_msb
                == GM2_DEFAULT_BANK),
    {
        Self::is_xg_drums(bank_msb) || bank_msb == XG_SFX_VOICE || bank_msb == GM2_DEFAULT_BANK
    }

    /// True for XG and GM2, the systems that select drums through the bank MSB.
    pub fn is_system_xg(system: MIDISystem) -> (r: bool)
        ensures
            r == spec_is_system_xg(system),
    {
        system == MIDISystem::Xg || system == MIDISystem::Gm2
    }

    /// Shifts a bank MSB by a sound bank's offset, saturating at 127.
    /// XG drum banks stay where they are when `xg_drums` is set.
    pub fn add_bank_offset(bank_msb: u8, bank_offset: u8, xg_drums: bool) -> (r: u8)
        ensures
            r == spec_add_bank_offset(bank_msb, bank_offset, xg_drums),
    {
        if Self::is_xg_drums(bank_msb) && xg_drums {
            bank_msb
        } else if bank_msb as u16 + bank_offset as u16 > 127 {
            127
        } else {
            bank_msb + bank_offset
        }
    }
}

/// The bank MSB after applying a sound bank offset.
pub open spec fn spec_add_bank_offset(bank_msb: u8, bank_offset: u8, xg_drums: bool) -> u8 {
    if spec_is_xg_drums(bank_msb) && xg_drums {
        bank_msb
    } else if bank_msb + bank_offset > 127 {
        127u8
    } else {
        (bank_msb + bank_offset) as u8
    }
}

} // verus!
