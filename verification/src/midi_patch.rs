//! MIDI patches (program + bank select + GM/GS drum flag), how they are matched,
//! keyed and ordered.
use vstd::prelude::*;
use vstd::string::*;
use core::cmp::Ordering;
use crate::text::{decimal_string, decimal_text};

verus! {

/// A MIDI patch: the program number and bank select of a preset.
#[derive(Clone, Copy, Debug, PartialEq, Eq, Structural)]
pub struct MidiPatch {
    pub program: u8,
    pub bank_msb: u8,
    pub bank_lsb: u8,
    /// True for the GM/GS drum kits (which ignore the bank).
    pub is_gm_gs_drum: bool,
}

/// A patch with a display name.
pub struct MidiPatchNamed {
    pub patch: MidiPatch,
    pub name: String,
}

impl Clone for MidiPatchNamed {
    fn clone(&self) -> (r: Self)
        ensures
            r == *self,
    {
        MidiPatchNamed { patch: self.patch, name: self.name.clone() }
    }
}

/// Two patches select the same preset: drum kits compare only their programs,
/// melodic patches compare program and both bank bytes. This is also equality of
/// the patches' MIDI strings.
pub open spec fn spec_patch_matches(a: MidiPatch, b: MidiPatch) -> bool {
    if a.is_gm_gs_drum || b.is_gm_gs_drum {
        a.is_gm_gs_drum == b.is_gm_gs_drum && a.program == b.program
    } else {
        a.program == b.program && a.bank_lsb == b.bank_lsb && a.bank_msb == b.bank_msb
    }
}

/// The strict order in which patches are listed: melodic before drums, then by
/// program, bank MSB and bank LSB.
pub open spec fn spec_patch_less(a: MidiPatch, b: MidiPatch) -> bool {
    if a.is_gm_gs_drum != b.is_gm_gs_drum {
        !a.is_gm_gs_drum
    } else if a.program != b.program {
        a.program < b.program
    } else if a.bank_msb != b.bank_msb {
        a.bank_msb < b.bank_msb
    } else {
        a.bank_lsb < b.bank_lsb
    }
}

/// The MIDI string of a patch: `DRUM:<program>` for drum kits,
/// `<bankLSB>:<bankMSB>:<program>` otherwise.
pub open spec fn midi_string_text(p: MidiPatch) -> Seq<char> {
    if p.is_gm_gs_drum {
        "DRUM:"@ + decimal_text(p.program as nat)
    } else {
        decimal_text(p.bank_lsb as nat) + ":"@ + decimal_text(p.bank_msb as nat) + ":"@
            + decimal_text(p.program as nat)
    }
}

/// Patches that do not match are ordered one way or the other.
pub proof fn lemma_unmatched_patches_are_ordered(a: MidiPatch, b: MidiPatch)
    requires
        !spec_patch_matches(a, b),
    ensures
        spec_patch_less(a, b) || spec_patch_less(b, a),
{
}

/// The patch order is irreflexive, asymmetric and transitive.
pub proof fn lemma_patch_less_is_strict_order(a: MidiPatch, b: MidiPatch, c: MidiPatch)
    ensures
        !spec_patch_less(a, a),
        spec_patch_less(a, b) ==> !spec_patch_less(b, a),
        spec_patch_less(a, b) && spec_patch_less(b, c) ==> spec_patch_less(a, c),
{
}

impl MidiPatch {
    /// True when both patches select the same preset.
    pub fn matches(&self, other: &MidiPatch) -> (r: bool)
        ensures
            r == spec_patch_matches(*self, *other),
    {
        if self.is_gm_gs_drum || other.is_gm_gs_drum {
            self.is_gm_gs_drum == other.is_gm_gs_drum && self.program == other.program
        } else {
            self.program == other.program && self.bank_lsb == other.bank_lsb
                && self.bank_msb == other.bank_msb
        }
    }

    /// The MIDI string of the patch, used as its identity in preset lists.
    pub fn to_midi_string(&self) -> (r: String)
        ensures
            r@ == midi_string_text(*self),
    {
        let mut s = String::new();
        if self.is_gm_gs_drum {
            s.append("DRUM:");
            let p = decimal_string(self.program as u64);
            s.append(p.as_str());
        } else {
            let lsb = decimal_string(self.bank_lsb as u64);
            let msb = decimal_string(self.bank_msb as u64);
            let p = decimal_string(self.program as u64);
            s.append(lsb.as_str());
            s.append(":");
            s.append(msb.as_str());
            s.append(":");
            s.append(p.as_str());
        }
        s
    }

    /// True when `self` is listed before `other`.
    pub fn is_listed_before(&self, other: &MidiPatch) -> (r: bool)
        ensures
            r == spec_patch_less(*self, *other),
    {
        if self.is_gm_gs_drum != other.is_gm_gs_drum {
            !self.is_gm_gs_drum
        } else if self.program != other.program {
            self.program < other.program
        } else if self.bank_msb != other.bank_msb {
            self.bank_msb < other.bank_msb
        } else {
            self.bank_lsb < other.bank_lsb
        }
    }
}

/// Compares two patches in listing order: melodic before drums, then by program,
/// bank MSB and bank LSB.
pub fn sorter(a: &MidiPatch, b: &MidiPatch) -> (r: Ordering)
    ensures
        (r == Ordering::Less) == spec_patch_less(*a, *b),
        (r == Ordering::Greater) == spec_patch_less(*b, *a),
        (r == Ordering::Equal) == (*a == *b),
{
    if a.is_listed_before(b) {
        Ordering::Less
    } else if b.is_listed_before(a) {
        Ordering::Greater
    } else {
        Ordering::Equal
    }
}

} // verus!
