//! Presets, sound banks and preset selection for a requested patch.
use vstd::prelude::*;
use crate::midi_patch::{MidiPatch, spec_patch_matches};
use crate::midi_system::{
    BankSelectHacks, MIDISystem, spec_is_system_xg, spec_is_xg_drums,
};

verus! {

/// A preset of a sound bank, reduced to what selection and listing read.
pub struct BasicPreset {
    pub name: String,
    pub program: u8,
    pub bank_msb: u8,
    pub bank_lsb: u8,
    pub is_gm_gs_drum: bool,
}

impl Clone for BasicPreset {
    fn clone(&self) -> (r: Self)
        ensures
            r == *self,
    {
        BasicPreset {
            name: self.name.clone(),
            program: self.program,
            bank_msb: self.bank_msb,
            bank_lsb: self.bank_lsb,
            is_gm_gs_drum: self.is_gm_gs_drum,
        }
    }
}

impl Default for BasicPreset {
    /// An unnamed melodic preset at program 0, bank 0:0.
    fn default() -> (r: Self)
        ensures
            r.name@ == Seq::<char>::empty(),
            r.program == 0,
            r.bank_msb == 0,
            r.bank_lsb == 0,
            !r.is_gm_gs_drum,
    {
        BasicPreset {
            name: String::new(),
            program: 0,
            bank_msb: 0,
            bank_lsb: 0,
            is_gm_gs_drum: false,
        }
    }
}

/// The patch a preset answers to.
pub open spec fn preset_patch(p: BasicPreset) -> MidiPatch {
    MidiPatch {
        program: p.program,
        bank_msb: p.bank_msb,
        bank_lsb: p.bank_lsb,
        is_gm_gs_drum: p.is_gm_gs_drum,
    }
}

/// A preset is an XG drum kit when its bank is an XG bank and its MSB selects drums.
pub open spec fn spec_preset_is_xg_drums(p: BasicPreset, bank_is_xg: bool) -> bool {
    bank_is_xg && spec_is_xg_drums(p.bank_msb)
}

/// A preset is a drum kit of any kind: GM/GS or XG.
pub open spec fn spec_preset_is_any_drums(p: BasicPreset, bank_is_xg: bool) -> bool {
    p.is_gm_gs_drum || spec_preset_is_xg_drums(p, bank_is_xg)
}

impl BasicPreset {
    /// The patch this preset answers to.
    pub fn to_midi_patch(&self) -> (r: MidiPatch)
        ensures
            r == preset_patch(*self),
    {
        MidiPatch {
            program: self.program,
            bank_msb: self.bank_msb,
            bank_lsb: self.bank_lsb,
            is_gm_gs_drum: self.is_gm_gs_drum,
        }
    }

    /// True when this preset is selected by `patch`.
    pub fn matches(&self, patch: &MidiPatch) -> (r: bool)
        ensures
            r == spec_patch_matches(preset_patch(*self), *patch),
    {
        self.to_midi_patch().matches(patch)
    }

    /// True when this preset is an XG drum kit of a bank that is an XG bank.
    pub fn is_xg_drums(&self, bank_is_xg: bool) -> (r: bool)
        ensures
            r == spec_preset_is_xg_drums(*self, bank_is_xg),
    {
        bank_is_xg && BankSelectHacks::is_xg_drums(self.bank_msb)
    }

    /// True when this preset is a GM/GS drum kit or an XG drum kit.
    pub fn is_any_drums(&self, bank_is_xg: bool) -> (r: bool)
        ensures
            r == spec_preset_is_any_drums(*self, bank_is_xg),
    {
        self.is_gm_gs_drum || self.is_xg_drums(bank_is_xg)
    }
}

/// A sound bank, reduced to its presets.
pub struct BasicSoundBank {
    pub presets: Vec<BasicPreset>,
}

impl Clone for BasicSoundBank {
    fn clone(&self) -> (r: Self)
        ensures
            r.presets@ == self.presets@,
    {
        let presets = self.presets.clone();
        proof {
            assert forall|i: int| 0 <= i < presets@.len() implies presets@[i] == self.presets@[i] by {
                assert(vstd::pervasive::cloned::<BasicPreset>(self.presets@[i], presets@[i]));
            }
            assert(presets@ =~= self.presets@);
        }
        BasicSoundBank { presets }
    }
}

impl Default for BasicSoundBank {
    /// A sound bank without presets.
    fn default() -> (r: Self)
        ensures
            r.presets@.len() == 0,
    {
        BasicSoundBank { presets: Vec::new() }
    }
}

/// The programs an XG drum kit may have for the bank to count as an XG bank.
pub open spec fn spec_is_allowed_xg_drum_program(program: u8) -> bool {
    program <= 9 || program == 16 || program == 17 || (24 <= program <= 33) || program == 40
        || program == 41 || program == 48 || (56 <= program <= 58) || (64 <= program <= 66)
        || program == 126 || program == 127
}

/// A bank is an XG bank when it has a kit on the XG drum bank (MSB 127) and every
/// preset on an XG drum bank (MSB 120 or 127) has one of the XG drum kit programs.
pub open spec fn spec_bank_is_xg(presets: Seq<BasicPreset>) -> bool {
    &&& exists|i: int| 0 <= i < presets.len() && #[trigger] presets[i].bank_msb == 127
    &&& forall|i: int|
        0 <= i < presets.len() && spec_is_xg_drums(#[trigger] presets[i].bank_msb)
            ==> spec_is_allowed_xg_drum_program(presets[i].program)
}

fn is_allowed_xg_drum_program(program: u8) -> (r: bool)
    ensures
        r == spec_is_allowed_xg_drum_program(program),
{
    program <= 9 || program == 16 || program == 17 || (24 <= program && program <= 33)
        || program == 40 || program == 41 || program == 48 || (56 <= program && program <= 58)
        || (64 <= program && program <= 66) || program == 126 || program == 127
}

impl BasicSoundBank {
    /// True when this is an XG bank (see [`spec_bank_is_xg`]).
    pub fn is_xg_bank(&self) -> (r: bool)
        ensures
            r == spec_bank_is_xg(self.presets@),
    {
        let mut found = false;
        let mut i: usize = 0;
        while i < self.presets.len()
            invariant
                i <= self.presets@.len(),
                found == exists|j: int| 0 <= j < i && #[trigger] self.presets@[j].bank_msb == 127,
                forall|j: int|
                    0 <= j < i && spec_is_xg_drums(#[trigger] self.presets@[j].bank_msb)
                        ==> spec_is_allowed_xg_drum_program(self.presets@[j].program),
            decreases self.presets@.len() - i,
        {
            let p = &self.presets[i];
            if p.bank_msb == 127 {
                found = true;
            }
            if BankSelectHacks::is_xg_drums(p.bank_msb) {
                if !is_allowed_xg_drum_program(p.program) {
                    return false;
                }
            }
            i = i + 1;
        }
        found
    }

    /// Releases the bank's data.
    pub fn destroy_sound_bank(&mut self)
        ensures
            final(self).presets@.len() == 0,
    {
        self.presets.clear();
    }
}

/// The index of the first `i < n` with `p(i)`, or -1 when there is none.
pub open spec fn first_index(n: int, p: spec_fn(int) -> bool) -> int
    decreases n,
{
    if n <= 0 {
        -1
    } else {
        let r = first_index(n - 1, p);
        if r >= 0 {
            r
        } else if p(n - 1) {
            n - 1
        } else {
            -1
        }
    }
}

/// `first_index` is the least index with the property, or -1 when none has it.
pub proof fn lemma_first_index(n: int, p: spec_fn(int) -> bool)
    ensures
        first_index(n, p) == -1 <==> (forall|j: int| 0 <= j < n ==> !#[trigger] p(j)),
        first_index(n, p) != -1 ==> 0 <= first_index(n, p) < n && p(first_index(n, p))
            && (forall|j: int| 0 <= j < first_index(n, p) ==> !#[trigger] p(j)),
    decreases n,
{
    if n > 0 {
        lemma_first_index(n - 1, p);
    }
}

/// The tests that preset selection searches with.
#[derive(Clone, Copy, Debug, PartialEq, Eq, Structural)]
pub enum PresetCriterion {
    /// The preset matches the patch.
    Matches,
    /// A GM/GS drum kit with the program.
    DrumProgram,
    /// Any drum kit with the program.
    AnyDrumProgram,
    /// Any drum kit.
    AnyDrum,
    /// An XG drum kit with the program.
    XgDrumProgram,
    /// Any XG drum kit.
    XgDrum,
    /// Any preset with the program.
    Program,
    /// A melodic preset with the program.
    MelodicProgram,
    /// A melodic preset with the program and the bank LSB.
    MelodicProgramLsb,
    /// A melodic preset with the program and the bank MSB.
    MelodicProgramMsb,
    /// A melodic preset with the program whose LSB or MSB equals the given bank.
    MelodicProgramBank(u8),
}

/// Whether preset `p` (of a bank whose XG flag is `xg`) passes `c` for `patch`.
pub open spec fn criterion_holds(c: PresetCriterion, p: BasicPreset, xg: bool, patch: MidiPatch) -> bool {
    let melodic = p.program == patch.program && !spec_preset_is_any_drums(p, xg);
    match c {
        PresetCriterion::Matches => spec_patch_matches(preset_patch(p), patch),
        PresetCriterion::DrumProgram => p.is_gm_gs_drum && p.program == patch.program,
        PresetCriterion::AnyDrumProgram => spec_preset_is_any_drums(p, xg) && p.program
            == patch.program,
        PresetCriterion::AnyDrum => spec_preset_is_any_drums(p, xg),
        PresetCriterion::XgDrumProgram => p.program == patch.program && spec_preset_is_xg_drums(
            p,
            xg,
        ),
        PresetCriterion::XgDrum => spec_preset_is_xg_drums(p, xg),
        PresetCriterion::Program => p.program == patch.program,
        PresetCriterion::MelodicProgram => melodic,
        PresetCriterion::MelodicProgramLsb => melodic && p.bank_lsb == patch.bank_lsb,
        PresetCriterion::MelodicProgramMsb => melodic && p.bank_msb == patch.bank_msb,
        PresetCriterion::MelodicProgramBank(b) => melodic && (p.bank_lsb == b || p.bank_msb == b),
    }
}

/// The first preset passing `c`, or -1.
pub open spec fn first_passing(
    presets: Seq<BasicPreset>,
    xg: Seq<bool>,
    patch: MidiPatch,
    c: PresetCriterion,
) -> int {
    first_index(presets.len() as int, |i: int| criterion_holds(c, presets[i], xg[i], patch))
}

fn passes(c: PresetCriterion, p: &BasicPreset, xg: bool, patch: &MidiPatch) -> (r: bool)
    ensures
        r == criterion_holds(c, *p, xg, *patch),
{
    let melodic = p.program == patch.program && !p.is_any_drums(xg);
    match c {
        PresetCriterion::Matches => p.matches(patch),
        PresetCriterion::DrumProgram => p.is_gm_gs_drum && p.program == patch.program,
        PresetCriterion::AnyDrumProgram => p.is_any_drums(xg) && p.program == patch.program,
        PresetCriterion::AnyDrum => p.is_any_drums(xg),
        PresetCriterion::XgDrumProgram => p.program == patch.program && p.is_xg_drums(xg),
        PresetCriterion::XgDrum => p.is_xg_drums(xg),
        PresetCriterion::Program => p.program == patch.program,
        PresetCriterion::MelodicProgram => melodic,
        PresetCriterion::MelodicProgramLsb => melodic && p.bank_lsb == patch.bank_lsb,
        PresetCriterion::MelodicProgramMsb => melodic && p.bank_msb == patch.bank_msb,
        PresetCriterion::MelodicProgramBank(b) => melodic && (p.bank_lsb == b || p.bank_msb == b),
    }
}

/// The index of the first preset passing `c`.
pub fn find_first(
    presets: &Vec<BasicPreset>,
    xg: &Vec<bool>,
    patch: &MidiPatch,
    c: PresetCriterion,
) -> (r: Option<usize>)
    requires
        xg@.len() == presets@.len(),
    ensures
        r is None <==> first_passing(presets@, xg@, *patch, c) < 0,
        r matches Some(i) ==> i as int == first_passing(presets@, xg@, *patch, c) && i
            < presets@.len(),
{
    let ghost pred = |i: int| criterion_holds(c, presets@[i], xg@[i], *patch);
    proof {
        lemma_first_index(presets@.len() as int, pred);
    }
    let mut i: usize = 0;
    while i < presets.len()
        invariant
            i <= presets@.len(),
            xg@.len() == presets@.len(),
            pred == (|i: int| criterion_holds(c, presets@[i], xg@[i], *patch)),
            forall|j: int| 0 <= j < i ==> !#[trigger] pred(j),
            first_index(presets@.len() as int, pred) == -1 <==> (forall|j: int|
                0 <= j < presets@.len() ==> !#[trigger] pred(j)),
            first_index(presets@.len() as int, pred) != -1 ==> 0 <= first_index(
                presets@.len() as int,
                pred,
            ) < presets@.len() && pred(first_index(presets@.len() as int, pred)) && (forall|
                j: int,
            |
                0 <= j < first_index(presets@.len() as int, pred) ==> !#[trigger] pred(j)),
        decreases presets@.len() - i,
    {
        if passes(c, &presets[i], xg[i], patch) {
            assert(pred(i as int));
            return Some(i);
        }
        i = i + 1;
    }
    None
}

/// The patch selection actually looks for: GM/GS drums requested in an XG system are
/// looked for as XG drums (bank LSB 0, MSB of the system's drum bank).
pub open spec fn normalized_patch(patch: MidiPatch, system: MIDISystem) -> MidiPatch {
    if patch.is_gm_gs_drum && spec_is_system_xg(system) {
        MidiPatch {
            is_gm_gs_drum: false,
            bank_lsb: 0,
            bank_msb: if system == MIDISystem::Gm2 { 120u8 } else { 127u8 },
            program: patch.program,
        }
    } else {
        patch
    }
}

/// `a` when it is an index, otherwise `b`.
pub open spec fn or_else(a: int, b: int) -> int {
    if a >= 0 { a } else { b }
}

/// The preset selected for `patch` in `system`, as an index into `presets`
/// (`xg[i]` is whether the bank of preset `i` is an XG bank).
///
/// An exact match wins, unless XG drums were requested and the match is not an XG kit.
/// Otherwise: for GM/GS drums the kit with the program, then any kit with the program,
/// then any kit; for XG drums the XG kit with the program, then any kit with the
/// program, then any XG kit, then any kit; for melodic patches the first melodic preset
/// with the program and the bank byte of the system (LSB for XG, MSB otherwise), then
/// one whose LSB or MSB equals the larger bank byte (not for XG bank LSB 64), then the
/// first melodic preset with the program, or failing that any preset with the program.
/// When nothing fits, the first preset.
pub open spec fn spec_select_preset(
    presets: Seq<BasicPreset>,
    xg: Seq<bool>,
    requested: MidiPatch,
    system: MIDISystem,
) -> int {
    let patch = normalized_patch(requested, system);
    let is_xg = spec_is_system_xg(system);
    let xg_drums = spec_is_xg_drums(patch.bank_msb) && is_xg;
    let exact = first_passing(presets, xg, patch, PresetCriterion::Matches);
    let f = |c: PresetCriterion| first_passing(presets, xg, patch, c);
    if exact >= 0 && (!xg_drums || spec_preset_is_xg_drums(presets[exact], xg[exact])) {
        exact
    } else if patch.is_gm_gs_drum {
        or_else(
            f(PresetCriterion::DrumProgram),
            or_else(f(PresetCriterion::AnyDrumProgram), or_else(f(PresetCriterion::AnyDrum), 0)),
        )
    } else if xg_drums {
        or_else(
            f(PresetCriterion::XgDrumProgram),
            or_else(
                f(PresetCriterion::AnyDrumProgram),
                or_else(f(PresetCriterion::XgDrum), or_else(f(PresetCriterion::AnyDrum), 0)),
            ),
        )
    } else {
        let first_melodic = f(PresetCriterion::MelodicProgram);
        if first_melodic < 0 {
            or_else(f(PresetCriterion::Program), 0)
        } else {
            let by_bank = if is_xg {
                f(PresetCriterion::MelodicProgramLsb)
            } else {
                f(PresetCriterion::MelodicProgramMsb)
            };
            let bank: u8 = if patch.bank_msb >= patch.bank_lsb {
                patch.bank_msb
            } else {
                patch.bank_lsb
            };
            if by_bank >= 0 {
                by_bank
            } else if patch.bank_lsb != 64 || !is_xg {
                or_else(f(PresetCriterion::MelodicProgramBank(bank)), first_melodic)
            } else {
                first_melodic
            }
        }
    }
}

/// Selects the preset for `patch` in `system` (see [`spec_select_preset`]) and returns
/// its index. `parent_is_xg[i]` tells whether the bank of preset `i` is an XG bank.
pub fn select_preset(
    presets: &Vec<BasicPreset>,
    parent_is_xg: &Vec<bool>,
    patch: MidiPatch,
    system: MIDISystem,
) -> (r: usize)
    requires
        presets@.len() > 0,
        parent_is_xg@.len() == presets@.len(),
    ensures
        r == spec_select_preset(presets@, parent_is_xg@, patch, system),
        r < presets@.len(),
{
    let ghost ps = presets@;
    let ghost xs = parent_is_xg@;
    let is_xg = BankSelectHacks::is_system_xg(system);
    let requested = patch;
    let patch = if patch.is_gm_gs_drum && is_xg {
        MidiPatch {
            is_gm_gs_drum: false,
            bank_lsb: 0,
            bank_msb: if system == MIDISystem::Gm2 { 120 } else { 127 },
            program: patch.program,
        }
    } else {
        patch
    };
    assert(patch == normalized_patch(requested, system));
    let xg_drums = BankSelectHacks::is_xg_drums(patch.bank_msb) && is_xg;
    let exact = find_first(presets, parent_is_xg, &patch, PresetCriterion::Matches);
    proof {
        lemma_first_index(ps.len() as int, |i: int| criterion_holds(PresetCriterion::Matches, ps[i], xs[i], patch));
    }
    if let Some(e) = exact {
        if !xg_drums || presets[e].is_xg_drums(parent_is_xg[e]) {
            return e;
        }
    }
    if patch.is_gm_gs_drum {
        if let Some(i) = find_first(presets, parent_is_xg, &patch, PresetCriterion::DrumProgram) {
            return i;
        }
        if let Some(i) = find_first(presets, parent_is_xg, &patch, PresetCriterion::AnyDrumProgram) {
            return i;
        }
        if let Some(i) = find_first(presets, parent_is_xg, &patch, PresetCriterion::AnyDrum) {
            return i;
        }
        return 0;
    }
    if xg_drums {
        if let Some(i) = find_first(presets, parent_is_xg, &patch, PresetCriterion::XgDrumProgram) {
            return i;
        }
        if let Some(i) = find_first(presets, parent_is_xg, &patch, PresetCriterion::AnyDrumProgram) {
            return i;
        }
        if let Some(i) = find_first(presets, parent_is_xg, &patch, PresetCriterion::XgDrum) {
            return i;
        }
        if let Some(i) = find_first(presets, parent_is_xg, &patch, PresetCriterion::AnyDrum) {
            return i;
        }
        return 0;
    }
    let first_melodic = find_first(presets, parent_is_xg, &patch, PresetCriterion::MelodicProgram);
    match first_melodic {
        None => {
            match find_first(presets, parent_is_xg, &patch, PresetCriterion::Program) {
                Some(i) => i,
                None => 0,
            }
        },
        Some(m) => {
            let by_bank = if is_xg {
                find_first(presets, parent_is_xg, &patch, PresetCriterion::MelodicProgramLsb)
            } else {
                find_first(presets, parent_is_xg, &patch, PresetCriterion::MelodicProgramMsb)
            };
            if let Some(i) = by_bank {
                return i;
            }
            if patch.bank_lsb != 64 || !is_xg {
                let bank: u8 = if patch.bank_msb >= patch.bank_lsb {
                    patch.bank_msb
                } else {
                    patch.bank_lsb
                };
                if let Some(i) = find_first(
                    presets,
                    parent_is_xg,
                    &patch,
                    PresetCriterion::MelodicProgramBank(bank),
                ) {
                    return i;
                }
            }
            m
        },
    }
}

/// Selecting a melodic patch never trades the instrument away while the sound banks
/// have it: when some melodic preset has the requested program, the selected preset
/// has the requested program too, and unless a preset matches the request exactly it
/// is a melodic one (a missing bank variation falls back to the same program, never
/// to another instrument).
pub proof fn lemma_select_keeps_requested_program(
    presets: Seq<BasicPreset>,
    xg: Seq<bool>,
    requested: MidiPatch,
    system: MIDISystem,
)
    requires
        presets.len() > 0,
        xg.len() == presets.len(),
        !requested.is_gm_gs_drum,
        !(spec_is_system_xg(system) && (requested.bank_msb == 120 || requested.bank_msb == 127)),
        exists|i: int|
            0 <= i < presets.len() && (#[trigger] presets[i]).program == requested.program
                && !presets[i].is_gm_gs_drum && !(xg[i] && (presets[i].bank_msb == 120 || presets[i].bank_msb == 127)),
    ensures
        0 <= spec_select_preset(presets, xg, requested, system) < presets.len(),
        presets[spec_select_preset(presets, xg, requested, system)].program == requested.program,
        (forall|i: int| 0 <= i < presets.len() ==> !(#[trigger] presets[i].program == requested.program
            && presets[i].bank_msb == requested.bank_msb && presets[i].bank_lsb == requested.bank_lsb
            && !presets[i].is_gm_gs_drum)) ==> {
            let r = spec_select_preset(presets, xg, requested, system);
            &&& !presets[r].is_gm_gs_drum
            &&& !(xg[r] && (presets[r].bank_msb == 120 || presets[r].bank_msb == 127))
        },
{
    let patch = normalized_patch(requested, system);
    assert(patch == requested);
    let n = presets.len() as int;
    let w = choose|i: int|
        0 <= i < presets.len() && (#[trigger] presets[i]).program == requested.program
            && !presets[i].is_gm_gs_drum && !(xg[i] && (presets[i].bank_msb == 120 || presets[i].bank_msb == 127));
    let bank: u8 = if patch.bank_msb >= patch.bank_lsb { patch.bank_msb } else { patch.bank_lsb };
    let pe = |i: int| criterion_holds(PresetCriterion::Matches, presets[i], xg[i], patch);
    let pm = |i: int| criterion_holds(PresetCriterion::MelodicProgram, presets[i], xg[i], patch);
    let pl = |i: int| criterion_holds(PresetCriterion::MelodicProgramLsb, presets[i], xg[i], patch);
    let ph = |i: int| criterion_holds(PresetCriterion::MelodicProgramMsb, presets[i], xg[i], patch);
    let pb = |i: int| criterion_holds(PresetCriterion::MelodicProgramBank(bank), presets[i], xg[i], patch);
    let exact = first_passing(presets, xg, patch, PresetCriterion::Matches);
    let m = first_passing(presets, xg, patch, PresetCriterion::MelodicProgram);
    let lsb = first_passing(presets, xg, patch, PresetCriterion::MelodicProgramLsb);
    let msb = first_passing(presets, xg, patch, PresetCriterion::MelodicProgramMsb);
    let bb = first_passing(presets, xg, patch, PresetCriterion::MelodicProgramBank(bank));
    assert(exact == first_index(n, pe));
    assert(m == first_index(n, pm));
    assert(lsb == first_index(n, pl));
    assert(msb == first_index(n, ph));
    assert(bb == first_index(n, pb));
    lemma_first_index(n, pe);
    lemma_first_index(n, pm);
    lemma_first_index(n, pl);
    lemma_first_index(n, ph);
    lemma_first_index(n, pb);
    assert(pm(w));
    assert(m != -1);
    let r = spec_select_preset(presets, xg, requested, system);
    if exact >= 0 {
        assert(criterion_holds(PresetCriterion::Matches, presets[exact], xg[exact], patch));
        assert(r == exact);
    } else {
        let by_bank = if spec_is_system_xg(system) { lsb } else { msb };
        if by_bank >= 0 {
            assert(r == by_bank);
            if spec_is_system_xg(system) {
                assert(criterion_holds(PresetCriterion::MelodicProgramLsb, presets[lsb], xg[lsb], patch));
            } else {
                assert(criterion_holds(PresetCriterion::MelodicProgramMsb, presets[msb], xg[msb], patch));
            }
        } else if patch.bank_lsb != 64 || !spec_is_system_xg(system) {
            if bb >= 0 {
                assert(r == bb);
                assert(criterion_holds(PresetCriterion::MelodicProgramBank(bank), presets[bb], xg[bb], patch));
            } else {
                assert(r == m);
                assert(criterion_holds(PresetCriterion::MelodicProgram, presets[m], xg[m], patch));
            }
        } else {
            assert(r == m);
            assert(criterion_holds(PresetCriterion::MelodicProgram, presets[m], xg[m], patch));
        }
    }
}

} // verus!
