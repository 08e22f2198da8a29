//! A priority-ordered stack of sound banks exposing one deduplicated, sorted preset list.
use vstd::prelude::*;
use vstd::string::*;
use crate::midi_patch::{
    MidiPatch, MidiPatchNamed, spec_patch_less, spec_patch_matches,
    lemma_unmatched_patches_are_ordered, lemma_patch_less_is_strict_order,
};
use crate::midi_system::{BankSelectHacks, MIDISystem, spec_add_bank_offset};
use crate::preset::{
    BasicPreset, BasicSoundBank, preset_patch, select_preset, spec_bank_is_xg,
    spec_preset_is_any_drums, spec_preset_is_xg_drums, spec_select_preset,
};

verus! {

/// An entry of the sound bank stack.
pub struct SoundBankManagerListEntry {
    /// The identifier of the sound bank.
    pub id: String,
    /// The sound bank itself.
    pub sound_bank: BasicSoundBank,
    /// Offset added to the bank MSB of every preset of this bank.
    pub bank_offset: u8,
}

/// An entry of the public preset list.
pub struct PresetListEntry {
    pub named: MidiPatchNamed,
    /// Whether the preset is a drum kit (GM/GS or XG).
    pub is_any_drums: bool,
}

impl Clone for PresetListEntry {
    fn clone(&self) -> (r: Self)
        ensures
            r == *self,
    {
        PresetListEntry { named: self.named.clone(), is_any_drums: self.is_any_drums }
    }
}

/// A preset with its bank MSB shifted by its bank's offset (XG drum kits of an XG bank
/// keep their MSB).
pub open spec fn adjusted_preset(p: BasicPreset, offset: u8, bank_is_xg: bool) -> BasicPreset {
    BasicPreset {
        name: p.name,
        program: p.program,
        bank_msb: spec_add_bank_offset(p.bank_msb, offset, spec_preset_is_xg_drums(p, bank_is_xg)),
        bank_lsb: p.bank_lsb,
        is_gm_gs_drum: p.is_gm_gs_drum,
    }
}

/// The adjusted presets of one bank, tagged with the bank's position.
pub open spec fn bank_candidates(e: SoundBankManagerListEntry, idx: int) -> Seq<(BasicPreset, usize)> {
    Seq::new(
        e.sound_bank.presets@.len(),
        |k: int|
            (
                adjusted_preset(
                    e.sound_bank.presets@[k],
                    e.bank_offset,
                    spec_bank_is_xg(e.sound_bank.presets@),
                ),
                idx as usize,
            ),
    )
}

/// The adjusted presets of all banks, in priority order, each tagged with its bank.
pub open spec fn candidates(list: Seq<SoundBankManagerListEntry>) -> Seq<(BasicPreset, usize)>
    decreases list.len(),
{
    if list.len() == 0 {
        Seq::<(BasicPreset, usize)>::empty()
    } else {
        candidates(list.drop_last()) + bank_candidates(list.last(), list.len() - 1)
    }
}

/// Some entry of `s` has a preset matching `p` (the same MIDI string).
pub open spec fn key_in(s: Seq<(BasicPreset, usize)>, p: BasicPreset) -> bool {
    exists|i: int| 0 <= i < s.len() && spec_patch_matches(preset_patch(#[trigger] s[i].0), preset_patch(p))
}

/// Keeps the first candidate of every MIDI string.
pub open spec fn dedup_first(c: Seq<(BasicPreset, usize)>) -> Seq<(BasicPreset, usize)>
    decreases c.len(),
{
    if c.len() == 0 {
        c
    } else {
        let d = dedup_first(c.drop_last());
        if key_in(d, c.last().0) {
            d
        } else {
            d.push(c.last())
        }
    }
}

/// Strictly increasing in patch listing order.
pub open spec fn sorted_by_patch(t: Seq<(BasicPreset, usize)>) -> bool {
    forall|i: int, j: int|
        0 <= i < j < t.len() ==> spec_patch_less(preset_patch(#[trigger] t[i].0), preset_patch(#[trigger] t[j].0))
}

/// Both sequences hold the same elements.
pub open spec fn same_elements(a: Seq<(BasicPreset, usize)>, b: Seq<(BasicPreset, usize)>) -> bool {
    &&& forall|i: int| 0 <= i < a.len() ==> b.contains(#[trigger] a[i])
    &&& forall|i: int| 0 <= i < b.len() ==> a.contains(#[trigger] b[i])
}

/// `table` is the selectable preset table of the bank stack `list`: the first preset of
/// every MIDI string across the banks in priority order, sorted in listing order.
pub open spec fn is_preset_table(
    list: Seq<SoundBankManagerListEntry>,
    table: Seq<(BasicPreset, usize)>,
) -> bool {
    &&& sorted_by_patch(table)
    &&& same_elements(table, dedup_first(candidates(list)))
}

/// The public preset list entry of a selectable preset.
pub open spec fn list_entry_of(p: BasicPreset, bank_is_xg: bool) -> PresetListEntry {
    PresetListEntry {
        named: MidiPatchNamed { patch: preset_patch(p), name: p.name },
        is_any_drums: spec_preset_is_any_drums(p, bank_is_xg),
    }
}

/// No two banks share an identifier.
pub open spec fn unique_ids(list: Seq<SoundBankManagerListEntry>) -> bool {
    forall|i: int, j: int| 0 <= i < j < list.len() ==> (#[trigger] list[i]).id@ != (#[trigger] list[j]).id@
}

/// Two bank entries hold the same identifier, presets and offset.
pub open spec fn same_entry(a: SoundBankManagerListEntry, b: SoundBankManagerListEntry) -> bool {
    a.id@ == b.id@ && a.sound_bank.presets@ == b.sound_bank.presets@ && a.bank_offset == b.bank_offset
}

/// Manages a priority-ordered stack of sound banks and exposes a unified,
/// deduplicated preset list. `F` is notified whenever the preset list changes.
pub struct SoundBankManager<F: Fn()> {
    /// All sound banks, from most to least important.
    pub sound_bank_list: Vec<SoundBankManagerListEntry>,
    preset_list_change_callback: F,
    selectable_preset_list: Vec<BasicPreset>,
    selectable_bank_idxs: Vec<usize>,
    selectable_is_xg: Vec<bool>,
    preset_list_entries: Vec<PresetListEntry>,
}

impl SoundBankManagerListEntry {
    fn duplicate(&self) -> (r: Self)
        ensures
            same_entry(r, *self),
    {
        SoundBankManagerListEntry {
            id: self.id.clone(),
            sound_bank: self.sound_bank.clone(),
            bank_offset: self.bank_offset,
        }
    }
}

impl<F: Fn()> SoundBankManager<F> {
    /// The bank stack, from most to least important.
    pub closed spec fn banks(&self) -> Seq<SoundBankManagerListEntry> {
        self.sound_bank_list@
    }

    /// The selectable preset table: each preset with the position of its bank.
    pub closed spec fn table(&self) -> Seq<(BasicPreset, usize)> {
        Seq::new(
            self.selectable_preset_list@.len(),
            |i: int| (self.selectable_preset_list@[i], self.selectable_bank_idxs@[i]),
        )
    }

    /// Whether the bank of each selectable preset is an XG bank.
    pub closed spec fn table_xg(&self) -> Seq<bool> {
        self.selectable_is_xg@
    }

    /// The public preset list as last generated.
    pub closed spec fn preset_list_view(&self) -> Seq<PresetListEntry> {
        self.preset_list_entries@
    }

    /// The callback the manager notifies.
    pub closed spec fn callback(&self) -> F {
        self.preset_list_change_callback
    }

    /// Internal consistency: identifiers are unique, the callback can be called, the
    /// preset table is sorted and the preset list is made of its entries, and while
    /// banks are loaded the preset table and list are those of the bank stack.
    pub closed spec fn wf(&self) -> bool {
        &&& unique_ids(self.sound_bank_list@)
        &&& self.preset_list_change_callback.requires(())
        &&& self.selectable_bank_idxs@.len() == self.selectable_preset_list@.len()
        &&& self.selectable_is_xg@.len() == self.selectable_preset_list@.len()
        &&& self.preset_list_entries@.len() == self.selectable_preset_list@.len()
        &&& self.sound_bank_list@.len() > 0 ==> self.tables_match_banks()
        &&& sorted_by_patch(self.table())
        &&& forall|i: int|
            0 <= i < self.preset_list_entries@.len() ==> #[trigger] self.preset_list_entries@[i]
                == list_entry_of(self.selectable_preset_list@[i], self.selectable_is_xg@[i])
    }

    closed spec fn tables_match_banks(&self) -> bool {
        &&& is_preset_table(self.sound_bank_list@, self.table())
        &&& forall|i: int|
            0 <= i < self.selectable_bank_idxs@.len() ==> #[trigger] self.selectable_bank_idxs@[i]
                < self.sound_bank_list@.len()
        &&& forall|i: int|
            0 <= i < self.selectable_is_xg@.len() ==> #[trigger] self.selectable_is_xg@[i]
                == spec_bank_is_xg(
                self.sound_bank_list@[self.selectable_bank_idxs@[i] as int].sound_bank.presets@,
            )
        &&& forall|i: int|
            0 <= i < self.preset_list_entries@.len() ==> #[trigger] self.preset_list_entries@[i]
                == list_entry_of(self.selectable_preset_list@[i], self.selectable_is_xg@[i])
    }

    /// The sound bank at a position of the stack.
    pub fn sound_bank_at(&self, idx: usize) -> (r: &BasicSoundBank)
        requires
            idx < self.banks().len(),
        ensures
            r.presets@ == self.banks()[idx as int].sound_bank.presets@,
    {
        &self.sound_bank_list[idx].sound_bank
    }

    /// The public preset list is sorted by patch, strictly, so no two entries share a
    /// patch and every drum kit comes after every melodic preset.
    pub proof fn lemma_preset_list_sorted(&self)
        requires
            self.wf(),
        ensures
            forall|i: int, j: int|
                0 <= i < j < self.preset_list_view().len() ==> spec_patch_less(
                    (#[trigger] self.preset_list_view()[i]).named.patch,
                    (#[trigger] self.preset_list_view()[j]).named.patch,
                ),
            forall|i: int, j: int|
                0 <= i < j < self.preset_list_view().len() ==> (#[trigger] self.preset_list_view()[i]).named.patch
                    != (#[trigger] self.preset_list_view()[j]).named.patch,
            forall|i: int, j: int|
                0 <= i < j < self.preset_list_view().len() && (#[trigger] self.preset_list_view()[i]).named.patch.is_gm_gs_drum
                    ==> (#[trigger] self.preset_list_view()[j]).named.patch.is_gm_gs_drum,
    {
        let l = self.preset_list_view();
        let t = self.table();
        assert forall|i: int, j: int| 0 <= i < j < l.len() implies spec_patch_less(
            (#[trigger] l[i]).named.patch,
            (#[trigger] l[j]).named.patch,
        ) && l[i].named.patch != l[j].named.patch by {
            assert(l[i] == list_entry_of(t[i].0, self.selectable_is_xg@[i]));
            assert(l[j] == list_entry_of(t[j].0, self.selectable_is_xg@[j]));
            lemma_patch_less_is_strict_order(l[i].named.patch, l[j].named.patch, l[i].named.patch);
        }
    }

    /// The consistency facts that hold while banks are loaded.
    pub proof fn lemma_wf_tables(&self)
        requires
            self.wf(),
            self.banks().len() > 0,
        ensures
            is_preset_table(self.banks(), self.table()),
            self.preset_list_view().len() == self.table().len(),
            self.table_xg().len() == self.table().len(),
            forall|i: int|
                0 <= i < self.table().len() ==> (#[trigger] self.table()[i]).1
                    < self.banks().len(),
            forall|i: int|
                0 <= i < self.table().len() ==> #[trigger] self.preset_list_view()[i]
                    == list_entry_of(self.table()[i].0, self.table_xg()[i]),
            forall|i: int|
                0 <= i < self.table().len() ==> #[trigger] self.table_xg()[i] == spec_bank_is_xg(
                    self.banks()[self.table()[i].1 as int].sound_bank.presets@,
                ),
    {
    }

    /// Creates an empty manager that notifies `preset_list_change_callback` whenever
    /// the preset list changes.
    pub fn new(preset_list_change_callback: F) -> (r: Self)
        requires
            preset_list_change_callback.requires(()),
        ensures
            r.wf(),
            r.banks().len() == 0,
            r.preset_list_view().len() == 0,
            r.callback() == preset_list_change_callback,
    {
        SoundBankManager {
            sound_bank_list: Vec::new(),
            preset_list_change_callback,
            selectable_preset_list: Vec::new(),
            selectable_bank_idxs: Vec::new(),
            selectable_is_xg: Vec::new(),
            preset_list_entries: Vec::new(),
        }
    }

    /// A copy of the full preset list.
    pub fn preset_list(&self) -> (r: Vec<PresetListEntry>)
        ensures
            r@ == self.preset_list_view(),
    {
        let r = self.preset_list_entries.clone();
        proof {
            assert forall|i: int| 0 <= i < r@.len() implies r@[i] == self.preset_list_entries@[i] by {
                assert(vstd::pervasive::cloned::<PresetListEntry>(self.preset_list_entries@[i], r@[i]));
            }
            assert(r@ =~= self.preset_list_entries@);
        }
        r
    }

    /// The identifiers of the banks, in priority order.
    pub fn priority_order(&self) -> (r: Vec<String>)
        ensures
            r@.len() == self.banks().len(),
            forall|i: int| 0 <= i < r@.len() ==> (#[trigger] r@[i])@ == self.banks()[i].id@,
    {
        let mut r: Vec<String> = Vec::new();
        let mut i: usize = 0;
        while i < self.sound_bank_list.len()
            invariant
                i <= self.sound_bank_list@.len(),
                r@.len() == i,
                forall|j: int| 0 <= j < i ==> (#[trigger] r@[j])@ == self.sound_bank_list@[j].id@,
            decreases self.sound_bank_list@.len() - i,
        {
            r.push(self.sound_bank_list[i].id.clone());
            i = i + 1;
        }
        r
    }
}


/// The selectable table held in parallel vectors.
pub open spec fn zip_table(presets: Seq<BasicPreset>, idxs: Seq<usize>) -> Seq<(BasicPreset, usize)> {
    Seq::new(presets.len(), |i: int| (presets[i], idxs[i]))
}

proof fn lemma_dedup_push(c: Seq<(BasicPreset, usize)>, x: (BasicPreset, usize))
    ensures
        dedup_first(c.push(x)) == (if key_in(dedup_first(c), x.0) {
            dedup_first(c)
        } else {
            dedup_first(c).push(x)
        }),
{
    assert(c.push(x).drop_last() =~= c);
}

proof fn lemma_key_in_transfer(t: Seq<(BasicPreset, usize)>, d: Seq<(BasicPreset, usize)>, p: BasicPreset)
    requires
        same_elements(t, d),
    ensures
        key_in(t, p) <==> key_in(d, p),
{
    if key_in(t, p) {
        let i = choose|i: int| 0 <= i < t.len() && spec_patch_matches(preset_patch(#[trigger] t[i].0), preset_patch(p));
        assert(d.contains(t[i]));
        let j = choose|j: int| 0 <= j < d.len() && d[j] == t[i];
        assert(spec_patch_matches(preset_patch(d[j].0), preset_patch(p)));
    }
    if key_in(d, p) {
        let i = choose|i: int| 0 <= i < d.len() && spec_patch_matches(preset_patch(#[trigger] d[i].0), preset_patch(p));
        assert(t.contains(d[i]));
        let j = choose|j: int| 0 <= j < t.len() && t[j] == d[i];
        assert(spec_patch_matches(preset_patch(t[j].0), preset_patch(p)));
    }
}

proof fn lemma_sorted_insert(t: Seq<(BasicPreset, usize)>, pos: int, x: (BasicPreset, usize))
    requires
        sorted_by_patch(t),
        !key_in(t, x.0),
        0 <= pos <= t.len(),
        forall|j: int| 0 <= j < pos ==> !spec_patch_less(preset_patch(x.0), preset_patch(#[trigger] t[j].0)),
        pos < t.len() ==> spec_patch_less(preset_patch(x.0), preset_patch(t[pos].0)),
    ensures
        sorted_by_patch(t.insert(pos, x)),
{
    let t2 = t.insert(pos, x);
    assert forall|j: int| 0 <= j < pos implies spec_patch_less(preset_patch(#[trigger] t[j].0), preset_patch(x.0)) by {
        if spec_patch_matches(preset_patch(t[j].0), preset_patch(x.0)) {
            assert(spec_patch_matches(preset_patch(x.0), preset_patch(t[j].0)));
            assert(key_in(t, x.0));
        }
        lemma_unmatched_patches_are_ordered(preset_patch(t[j].0), preset_patch(x.0));
    }
    assert forall|j: int| pos <= j < t.len() implies spec_patch_less(preset_patch(x.0), preset_patch(#[trigger] t[j].0)) by {
        if j > pos {
            lemma_patch_less_is_strict_order(preset_patch(x.0), preset_patch(t[pos].0), preset_patch(t[j].0));
        }
    }
    assert forall|i: int, j: int| 0 <= i < j < t2.len() implies spec_patch_less(preset_patch(#[trigger] t2[i].0), preset_patch(#[trigger] t2[j].0)) by {
        if i < pos && j == pos {
        } else if i < pos && j > pos {
            assert(t2[j] == t[j - 1]);
            assert(spec_patch_less(preset_patch(t[i].0), preset_patch(x.0)));
            lemma_patch_less_is_strict_order(preset_patch(t[i].0), preset_patch(x.0), preset_patch(t[j - 1].0));
        } else if i == pos {
            assert(t2[j] == t[j - 1]);
        } else if i > pos {
            assert(t2[i] == t[i - 1]);
            assert(t2[j] == t[j - 1]);
        } else {
        }
    }
}

proof fn lemma_same_elements_insert(
    t: Seq<(BasicPreset, usize)>,
    d: Seq<(BasicPreset, usize)>,
    pos: int,
    x: (BasicPreset, usize),
)
    requires
        same_elements(t, d),
        0 <= pos <= t.len(),
    ensures
        same_elements(t.insert(pos, x), d.push(x)),
{
    let t2 = t.insert(pos, x);
    let d2 = d.push(x);
    assert forall|i: int| 0 <= i < t2.len() implies d2.contains(#[trigger] t2[i]) by {
        if i == pos {
            assert(d2[d.len() as int] == x);
        } else {
            let k = if i < pos { i } else { i - 1 };
            assert(t2[i] == t[k]);
            assert(d.contains(t[k]));
            let j = choose|j: int| 0 <= j < d.len() && d[j] == t[k];
            assert(d2[j] == d[j]);
        }
    }
    assert forall|i: int| 0 <= i < d2.len() implies t2.contains(#[trigger] d2[i]) by {
        if i == d.len() {
            assert(t2[pos] == x);
        } else {
            assert(d2[i] == d[i]);
            assert(t.contains(d[i]));
            let j = choose|j: int| 0 <= j < t.len() && t[j] == d[i];
            if j < pos {
                assert(t2[j] == t[j]);
            } else {
                assert(t2[j + 1] == t[j]);
            }
        }
    }
}

fn contains_matching(presets: &Vec<BasicPreset>, p: &BasicPreset) -> (r: bool)
    ensures
        r == exists|i: int| 0 <= i < presets@.len() && spec_patch_matches(preset_patch(#[trigger] presets@[i]), preset_patch(*p)),
{
    let target = p.to_midi_patch();
    let mut i: usize = 0;
    while i < presets.len()
        invariant
            i <= presets@.len(),
            target == preset_patch(*p),
            forall|j: int| 0 <= j < i ==> !spec_patch_matches(preset_patch(#[trigger] presets@[j]), preset_patch(*p)),
        decreases presets@.len() - i,
    {
        if presets[i].matches(&target) {
            proof {
                assert(spec_patch_matches(preset_patch(presets@[i as int]), preset_patch(*p)));
            }
            return true;
        }
        i = i + 1;
    }
    false
}

fn insert_position(presets: &Vec<BasicPreset>, p: &BasicPreset) -> (r: usize)
    ensures
        r <= presets@.len(),
        forall|j: int| 0 <= j < r ==> !spec_patch_less(preset_patch(*p), preset_patch(#[trigger] presets@[j])),
        r < presets@.len() ==> spec_patch_less(preset_patch(*p), preset_patch(presets@[r as int])),
{
    let target = p.to_midi_patch();
    let mut i: usize = 0;
    while i < presets.len()
        invariant
            i <= presets@.len(),
            target == preset_patch(*p),
            forall|j: int| 0 <= j < i ==> !spec_patch_less(preset_patch(*p), preset_patch(#[trigger] presets@[j])),
        decreases presets@.len() - i,
    {
        let other = presets[i].to_midi_patch();
        if target.is_listed_before(&other) {
            return i;
        }
        i = i + 1;
    }
    i
}

proof fn lemma_candidates_step(list: Seq<SoundBankManagerListEntry>, b: int)
    requires
        0 <= b < list.len(),
    ensures
        candidates(list.take(b + 1)) == candidates(list.take(b)) + bank_candidates(list[b], b),
{
    assert(list.take(b + 1).drop_last() =~= list.take(b));
}

impl<F: Fn()> SoundBankManager<F> {
    /// Rebuilds the selectable table and the public preset list from the bank stack,
    /// then notifies the callback.
    fn generate_preset_list(&mut self)
        requires
            unique_ids(old(self).sound_bank_list@),
            old(self).preset_list_change_callback.requires(()),
        ensures
            final(self).wf(),
            final(self).sound_bank_list@ == old(self).sound_bank_list@,
            final(self).preset_list_change_callback == old(self).preset_list_change_callback,
            is_preset_table(final(self).sound_bank_list@, final(self).table()),
    {
        let mut presets: Vec<BasicPreset> = Vec::new();
        let mut idxs: Vec<usize> = Vec::new();
        let mut xgs: Vec<bool> = Vec::new();
        let ghost list = self.sound_bank_list@;
        let ghost mut prefix: Seq<(BasicPreset, usize)> = Seq::empty();
        let mut b: usize = 0;
        proof {
            assert(list.take(0) =~= Seq::<SoundBankManagerListEntry>::empty());
            assert(zip_table(presets@, idxs@) =~= Seq::<(BasicPreset, usize)>::empty());
        }
        while b < self.sound_bank_list.len()
            invariant
                list == self.sound_bank_list@,
                b <= list.len(),
                prefix == candidates(list.take(b as int)),
                idxs@.len() == presets@.len(),
                xgs@.len() == presets@.len(),
                sorted_by_patch(zip_table(presets@, idxs@)),
                same_elements(zip_table(presets@, idxs@), dedup_first(prefix)),
                forall|i: int| 0 <= i < idxs@.len() ==> #[trigger] idxs@[i] < b,
                forall|i: int| 0 <= i < xgs@.len() ==> #[trigger] xgs@[i] == spec_bank_is_xg(list[idxs@[i] as int].sound_bank.presets@),
            decreases list.len() - b,
        {
            let entry = &self.sound_bank_list[b];
            let bank_xg = entry.sound_bank.is_xg_bank();
            let offset = entry.bank_offset;
            let ghost bc = bank_candidates(list[b as int], b as int);
            let mut k: usize = 0;
            proof {
                assert(bc.take(0) =~= Seq::<(BasicPreset, usize)>::empty());
                assert(prefix + bc.take(0) =~= prefix);
            }
            while k < entry.sound_bank.presets.len()
                invariant
                    list == self.sound_bank_list@,
                    b < list.len(),
                    *entry == list[b as int],
                    bank_xg == spec_bank_is_xg(entry.sound_bank.presets@),
                    offset == entry.bank_offset,
                    bc == bank_candidates(list[b as int], b as int),
                    k <= entry.sound_bank.presets@.len(),
                    prefix == candidates(list.take(b as int)) + bc.take(k as int),
                    idxs@.len() == presets@.len(),
                    xgs@.len() == presets@.len(),
                    sorted_by_patch(zip_table(presets@, idxs@)),
                    same_elements(zip_table(presets@, idxs@), dedup_first(prefix)),
                    forall|i: int| 0 <= i < idxs@.len() ==> #[trigger] idxs@[i] <= b,
                    forall|i: int| 0 <= i < xgs@.len() ==> #[trigger] xgs@[i] == spec_bank_is_xg(list[idxs@[i] as int].sound_bank.presets@),
                decreases entry.sound_bank.presets@.len() - k,
            {
                let p = &entry.sound_bank.presets[k];
                let msb = BankSelectHacks::add_bank_offset(p.bank_msb, offset, p.is_xg_drums(bank_xg));
                let adjusted = BasicPreset {
                    name: p.name.clone(),
                    program: p.program,
                    bank_msb: msb,
                    bank_lsb: p.bank_lsb,
                    is_gm_gs_drum: p.is_gm_gs_drum,
                };
                let ghost x = (adjusted, b);
                let ghost t = zip_table(presets@, idxs@);
                proof {
                    assert(x == bc[k as int]);
                    assert(bc.take(k + 1) =~= bc.take(k as int).push(x));
                    lemma_dedup_push(prefix, x);
                    lemma_key_in_transfer(t, dedup_first(prefix), adjusted);
                }
                let found = contains_matching(&presets, &adjusted);
                proof {
                    if found {
                        let i = choose|i: int| 0 <= i < presets@.len() && spec_patch_matches(preset_patch(#[trigger] presets@[i]), preset_patch(adjusted));
                        assert(t[i].0 == presets@[i]);
                        assert(key_in(t, adjusted));
                    } else {
                        assert forall|i: int| 0 <= i < t.len() implies !spec_patch_matches(preset_patch(#[trigger] t[i].0), preset_patch(adjusted)) by {
                            assert(t[i].0 == presets@[i]);
                        }
                    }
                }
                if !found {
                    let pos = insert_position(&presets, &adjusted);
                    proof {
                        assert forall|j: int| 0 <= j < pos implies !spec_patch_less(preset_patch(adjusted), preset_patch(#[trigger] t[j].0)) by {
                            assert(t[j].0 == presets@[j]);
                        }
                        lemma_sorted_insert(t, pos as int, x);
                        lemma_same_elements_insert(t, dedup_first(prefix), pos as int, x);
                    }
                    let ghost xgs_before = xgs@;
                    let ghost idxs_before = idxs@;
                    presets.insert(pos, adjusted);
                    idxs.insert(pos, b);
                    xgs.insert(pos, bank_xg);
                    proof {
                        assert(zip_table(presets@, idxs@) =~= t.insert(pos as int, x));
                        assert forall|i: int| 0 <= i < xgs@.len() implies #[trigger] xgs@[i] == spec_bank_is_xg(list[idxs@[i] as int].sound_bank.presets@) by {
                            if i < pos {
                            } else if i == pos {
                            } else {
                                assert(xgs@[i] == xgs_before[i - 1]);
                                assert(idxs@[i] == idxs_before[i - 1]);
                            }
                        }
                    }
                }
                proof {
                    prefix = prefix.push(x);
                    assert(candidates(list.take(b as int)) + bc.take(k + 1) =~= (candidates(list.take(b as int)) + bc.take(k as int)).push(x));
                }
                k = k + 1;
            }
            proof {
                assert(bc.take(k as int) =~= bc);
                lemma_candidates_step(list, b as int);
            }
            b = b + 1;
        }
        proof {
            assert(list.take(list.len() as int) =~= list);
        }
        let mut entries: Vec<PresetListEntry> = Vec::new();
        let mut i: usize = 0;
        while i < presets.len()
            invariant
                i <= presets@.len(),
                xgs@.len() == presets@.len(),
                entries@.len() == i,
                forall|j: int| 0 <= j < i ==> #[trigger] entries@[j] == list_entry_of(presets@[j], xgs@[j]),
            decreases presets@.len() - i,
        {
            let p = &presets[i];
            entries.push(PresetListEntry {
                named: MidiPatchNamed { patch: p.to_midi_patch(), name: p.name.clone() },
                is_any_drums: p.is_any_drums(xgs[i]),
            });
            i = i + 1;
        }
        self.selectable_preset_list = presets;
        self.selectable_bank_idxs = idxs;
        self.selectable_is_xg = xgs;
        self.preset_list_entries = entries;
        proof {
            assert(self.table() =~= zip_table(self.selectable_preset_list@, self.selectable_bank_idxs@));
        }
        (self.preset_list_change_callback)();
    }
}

/// The predicate "the name at position k is `id`".
pub open spec fn names_id(names: Seq<String>, id: Seq<char>) -> spec_fn(int) -> bool {
    |k: int| names[k]@ == id
}

/// The first position of `id` in `names`, or `names.len()` when it is absent.
pub open spec fn priority_rank(names: Seq<String>, id: Seq<char>) -> int {
    let f = crate::preset::first_index(names.len() as int, names_id(names, id));
    if f >= 0 { f } else { names.len() as int }
}

/// `order` lists the bank positions of `list` sorted by (rank in `names`, old position):
/// banks named in `names` come first in the order of their first mention, the others
/// keep their relative order after them.
pub open spec fn is_priority_order(
    list: Seq<SoundBankManagerListEntry>,
    names: Seq<String>,
    order: Seq<usize>,
) -> bool {
    &&& forall|i: int| 0 <= i < order.len() ==> #[trigger] order[i] < list.len()
    &&& forall|j: usize| j < list.len() ==> #[trigger] order.contains(j)
    &&& forall|a: int, b: int|
        #![trigger order[a], order[b]]
        0 <= a < b < order.len() ==> {
            let ra = priority_rank(names, list[order[a] as int].id@);
            let rb = priority_rank(names, list[order[b] as int].id@);
            ra < rb || (ra == rb && order[a] < order[b])
        }
}

impl<F: Fn()> SoundBankManager<F> {
    /// Adds a sound bank at the lowest priority, or replaces the bank and offset of the
    /// entry that already has this identifier (keeping its place). Then regenerates the
    /// preset list and notifies the callback.
    #[verifier::loop_isolation(false)]
    pub fn add_sound_bank(&mut self, font: BasicSoundBank, id: String, bank_offset: u8)
        requires
            old(self).wf(),
        ensures
            final(self).wf(),
            final(self).callback() == old(self).callback(),
            is_preset_table(final(self).banks(), final(self).table()),
            (exists|i: int| 0 <= i < old(self).banks().len() && old(self).banks()[i].id@ == id@)
                ==> {
                let i = choose|i: int| 0 <= i < old(self).banks().len() && old(self).banks()[i].id@ == id@;
                &&& final(self).banks().len() == old(self).banks().len()
                &&& forall|j: int| 0 <= j < old(self).banks().len() && j != i
                    ==> #[trigger] final(self).banks()[j] == old(self).banks()[j]
                &&& final(self).banks()[i].id@ == id@
                &&& final(self).banks()[i].sound_bank.presets@ == font.presets@
                &&& final(self).banks()[i].bank_offset == bank_offset
            },
            !(exists|i: int| 0 <= i < old(self).banks().len() && old(self).banks()[i].id@ == id@)
                ==> {
                &&& final(self).banks().len() == old(self).banks().len() + 1
                &&& forall|j: int| 0 <= j < old(self).banks().len()
                    ==> #[trigger] final(self).banks()[j] == old(self).banks()[j]
                &&& final(self).banks().last().id@ == id@
                &&& final(self).banks().last().sound_bank.presets@ == font.presets@
                &&& final(self).banks().last().bank_offset == bank_offset
            },
    {
        let mut i: usize = 0;
        while i < self.sound_bank_list.len()
            invariant
                i <= self.sound_bank_list@.len(),
                self.sound_bank_list@ == old(self).sound_bank_list@,
                self.preset_list_change_callback == old(self).preset_list_change_callback,
                forall|j: int| 0 <= j < i ==> (#[trigger] self.sound_bank_list@[j]).id@ != id@,
            decreases self.sound_bank_list@.len() - i,
        {
            if self.sound_bank_list[i].id == id {
                let ghost old_list = self.sound_bank_list@;
                let entry = SoundBankManagerListEntry { id, sound_bank: font, bank_offset };
                self.sound_bank_list.set(i, entry);
                proof {
                    assert(old_list[i as int].id@ == entry.id@);
                    assert forall|a: int, b: int| 0 <= a < b < self.sound_bank_list@.len() implies (#[trigger] self.sound_bank_list@[a]).id@ != (#[trigger] self.sound_bank_list@[b]).id@ by {
                        assert(old_list[a].id@ != old_list[b].id@);
                    }
                    let k = choose|k: int| 0 <= k < old_list.len() && old_list[k].id@ == id@;
                    if k != i {
                        if k < i {
                        } else {
                            assert(old_list[i as int].id@ != old_list[k].id@);
                        }
                    }
                }
                self.generate_preset_list();
                return;
            }
            i = i + 1;
        }
        let ghost old_list = self.sound_bank_list@;
        self.sound_bank_list.push(SoundBankManagerListEntry { id, sound_bank: font, bank_offset });
        proof {
            assert forall|a: int, b: int| 0 <= a < b < self.sound_bank_list@.len() implies (#[trigger] self.sound_bank_list@[a]).id@ != (#[trigger] self.sound_bank_list@[b]).id@ by {
                if b < old_list.len() {
                    assert(old_list[a].id@ != old_list[b].id@);
                }
            }
        }
        self.generate_preset_list();
    }

    /// Removes the bank with identifier `id` and regenerates the preset list.
    /// Does nothing when no bank is loaded.
    #[verifier::loop_isolation(false)]
    pub fn delete_sound_bank(&mut self, id: &str)
        requires
            old(self).wf(),
            old(self).banks().len() == 0 || exists|i: int|
                0 <= i < old(self).banks().len() && old(self).banks()[i].id@ == id@,
        ensures
            final(self).wf(),
            final(self).callback() == old(self).callback(),
            old(self).banks().len() == 0 ==> final(self).banks() == old(self).banks()
                && final(self).table() == old(self).table()
                && final(self).preset_list_view() == old(self).preset_list_view(),
            old(self).banks().len() > 0 ==> {
                let i = choose|i: int| 0 <= i < old(self).banks().len() && old(self).banks()[i].id@ == id@;
                &&& final(self).banks() == old(self).banks().remove(i)
                &&& is_preset_table(final(self).banks(), final(self).table())
            },
    {
        if self.sound_bank_list.len() == 0 {
            return;
        }
        let target = String::from_str(id);
        let ghost old_list = self.sound_bank_list@;
        let ghost k = choose|i: int| 0 <= i < old_list.len() && old_list[i].id@ == id@;
        let mut i: usize = 0;
        while i < self.sound_bank_list.len()
            invariant
                i <= self.sound_bank_list@.len(),
                self.sound_bank_list@ == old_list,
                self.preset_list_change_callback == old(self).preset_list_change_callback,
                unique_ids(old_list),
                target@ == id@,
                0 <= k < old_list.len(),
                old_list[k].id@ == id@,
                forall|j: int| 0 <= j < i ==> (#[trigger] old_list[j]).id@ != id@,
            decreases self.sound_bank_list@.len() - i,
        {
            if self.sound_bank_list[i].id == target {
                proof {
                    if i as int != k {
                        if (i as int) < k {
                            assert(old_list[i as int].id@ != old_list[k].id@);
                        } else {
                            assert(old_list[k].id@ != old_list[i as int].id@);
                        }
                    }
                }
                self.sound_bank_list.remove(i);
                proof {
                    assert forall|a: int, b: int| 0 <= a < b < self.sound_bank_list@.len() implies (#[trigger] self.sound_bank_list@[a]).id@ != (#[trigger] self.sound_bank_list@[b]).id@ by {
                        let a0 = if a < i { a } else { a + 1 };
                        let b0 = if b < i { b } else { b + 1 };
                        assert(old_list[a0].id@ != old_list[b0].id@);
                    }
                }
                self.generate_preset_list();
                return;
            }
            i = i + 1;
        }
        proof {
            assert(old_list[k].id@ != id@);
        }
    }

    /// Reorders the banks to follow `new_list` (banks it does not name keep their
    /// relative order after the named ones) and regenerates the preset list.
    #[verifier::loop_isolation(false)]
    pub fn set_priority_order(&mut self, new_list: &[String])
        requires
            old(self).wf(),
        ensures
            final(self).wf(),
            final(self).callback() == old(self).callback(),
            exists|order: Seq<usize>|
                #![trigger is_priority_order(old(self).banks(), new_list@, order)]
            {
                &&& is_priority_order(old(self).banks(), new_list@, order)
                &&& final(self).banks().len() == order.len()
                &&& forall|i: int| 0 <= i < order.len() ==> same_entry(
                    #[trigger] final(self).banks()[i],
                    old(self).banks()[order[i] as int],
                )
            },
            is_preset_table(final(self).banks(), final(self).table()),
    {
        let order = priority_permutation(&self.sound_bank_list, new_list);
        let mut reordered: Vec<SoundBankManagerListEntry> = Vec::new();
        let mut i: usize = 0;
        let ghost old_list = self.sound_bank_list@;
        while i < order.len()
            invariant
                i <= order@.len(),
                self.sound_bank_list@ == old_list,
                is_priority_order(old_list, new_list@, order@),
                reordered@.len() == i,
                forall|j: int| 0 <= j < i ==> same_entry(#[trigger] reordered@[j], old_list[order@[j] as int]),
            decreases order@.len() - i,
        {
            let e = self.sound_bank_list[order[i]].duplicate();
            reordered.push(e);
            i = i + 1;
        }
        proof {
            assert forall|a: int, b: int| 0 <= a < b < reordered@.len() implies (#[trigger] reordered@[a]).id@ != (#[trigger] reordered@[b]).id@ by {
                let oa = order@[a] as int;
                let ob = order@[b] as int;
                assert(oa != ob);
                if oa < ob {
                    assert(old_list[oa].id@ != old_list[ob].id@);
                } else {
                    assert(old_list[ob].id@ != old_list[oa].id@);
                }
            }
        }
        self.sound_bank_list = reordered;
        self.generate_preset_list();
        proof {
            let o = order@;
            assert(is_priority_order(old_list, new_list@, o) && self.banks().len() == o.len()
                && forall|i: int| 0 <= i < o.len() ==> same_entry(#[trigger] self.banks()[i], old_list[o[i] as int]));
            assert(old_list == old(self).banks());
            assert(is_priority_order(old(self).banks(), new_list@, o));
        }
    }

    /// Selects the preset for `patch` in `system` and returns it with its source bank.
    /// `None` when no bank is loaded or no preset is selectable.
    pub fn get_preset_and_bank(&self, patch: MidiPatch, system: MIDISystem) -> (r: Option<(&BasicPreset, &BasicSoundBank)>)
        requires
            self.wf(),
        ensures
            (self.banks().len() == 0 || self.table().len() == 0) <==> r is None,
            r matches Some((p, b)) ==> {
                let i = spec_select_preset(
                    self.table().map_values(|e: (BasicPreset, usize)| e.0),
                    self.table_xg(),
                    patch,
                    system,
                );
                &&& 0 <= i < self.table().len()
                &&& *p == self.table()[i].0
                &&& *b == self.banks()[self.table()[i].1 as int].sound_bank
            },
    {
        match self.get_preset_and_bank_idx(patch, system) {
            None => None,
            Some((p, bank_idx)) => Some((p, &self.sound_bank_list[bank_idx].sound_bank)),
        }
    }

    /// Selects the preset for `patch` in `system` and returns it with the position of its
    /// source bank. `None` when no bank is loaded or no preset is selectable.
    pub fn get_preset_and_bank_idx(&self, patch: MidiPatch, system: MIDISystem) -> (r: Option<(&BasicPreset, usize)>)
        requires
            self.wf(),
        ensures
            (self.banks().len() == 0 || self.table().len() == 0) <==> r is None,
            r matches Some((p, b)) ==> {
                let i = spec_select_preset(
                    self.table().map_values(|e: (BasicPreset, usize)| e.0),
                    self.table_xg(),
                    patch,
                    system,
                );
                &&& 0 <= i < self.table().len()
                &&& *p == self.table()[i].0
                &&& b == self.table()[i].1
                &&& b < self.banks().len()
            },
    {
        if self.sound_bank_list.len() == 0 || self.selectable_preset_list.len() == 0 {
            return None;
        }
        let idx = select_preset(&self.selectable_preset_list, &self.selectable_is_xg, patch, system);
        proof {
            assert(self.table().map_values(|e: (BasicPreset, usize)| e.0) =~= self.selectable_preset_list@);
        }
        let bank_idx = self.selectable_bank_idxs[idx];
        Some((&self.selectable_preset_list[idx], bank_idx))
    }

    /// Destroys every bank and empties the bank list. The preset list is left as it
    /// was; selection answers `None` from now on.
    pub fn destroy(&mut self)
        requires
            old(self).wf(),
        ensures
            final(self).wf(),
            final(self).banks().len() == 0,
            final(self).callback() == old(self).callback(),
            final(self).preset_list_view() == old(self).preset_list_view(),
    {
        while self.sound_bank_list.len() > 0
            invariant
                self.preset_list_change_callback == old(self).preset_list_change_callback,
                self.selectable_preset_list == old(self).selectable_preset_list,
                self.selectable_bank_idxs == old(self).selectable_bank_idxs,
                self.selectable_is_xg == old(self).selectable_is_xg,
                self.preset_list_entries == old(self).preset_list_entries,
                unique_ids(self.sound_bank_list@),
            decreases self.sound_bank_list@.len(),
        {
            let mut entry = self.sound_bank_list.pop().unwrap();
            entry.sound_bank.destroy_sound_bank();
        }
    }
}

/// The first position of `id` in `names`, or `names.len()`.
fn name_position(names: &[String], id: &String) -> (r: usize)
    ensures
        r as int == priority_rank(names@, id@),
        r <= names@.len(),
{
    let ghost pred = names_id(names@, id@);
    proof {
        crate::preset::lemma_first_index(names@.len() as int, pred);
    }
    let mut k: usize = 0;
    while k < names.len()
        invariant
            k <= names@.len(),
            pred == names_id(names@, id@),
            forall|j: int| 0 <= j < k ==> !#[trigger] pred(j),
        decreases names@.len() - k,
    {
        if names[k] == *id {
            proof {
                assert(pred(k as int));
                assert(forall|j: int| 0 <= j < k ==> !#[trigger] pred(j));
                crate::preset::lemma_first_index(names@.len() as int, pred);
                let f = crate::preset::first_index(names@.len() as int, pred);
                if f != k as int {
                    if f < k as int {
                        assert(!pred(f));
                    } else {
                        assert(!pred(k as int));
                    }
                }
            }
            return k;
        }
        k = k + 1;
    }
    k
}

/// The position of the bank named `name`, if any.
fn bank_position(list: &Vec<SoundBankManagerListEntry>, name: &String) -> (r: Option<usize>)
    ensures
        r matches Some(j) ==> j < list@.len() && list@[j as int].id@ == name@,
        r is None ==> forall|j: int| 0 <= j < list@.len() ==> (#[trigger] list@[j]).id@ != name@,
{
    let mut j: usize = 0;
    while j < list.len()
        invariant
            j <= list@.len(),
            forall|i: int| 0 <= i < j ==> (#[trigger] list@[i]).id@ != name@,
        decreases list@.len() - j,
    {
        if list[j].id == *name {
            return Some(j);
        }
        j = j + 1;
    }
    None
}

proof fn lemma_rank_bounds(names: Seq<String>, id: Seq<char>)
    ensures
        0 <= priority_rank(names, id) <= names.len(),
        priority_rank(names, id) < names.len() ==> names[priority_rank(names, id)]@ == id,
{
    crate::preset::lemma_first_index(names.len() as int, names_id(names, id));
}

/// The bank positions of `list` in the order `names` asks for.
fn priority_permutation(list: &Vec<SoundBankManagerListEntry>, names: &[String]) -> (order: Vec<usize>)
    requires
        unique_ids(list@),
    ensures
        is_priority_order(list@, names@, order@),
{
    let ghost l = list@;
    let ghost n = names@;
    let ghost rank = |j: int| priority_rank(n, l[j].id@);
    let mut order: Vec<usize> = Vec::new();
    let mut k: usize = 0;
    while k < names.len()
        invariant
            l == list@,
            n == names@,
            unique_ids(l),
            rank == (|j: int| priority_rank(n, l[j].id@)),
            k <= n.len(),
            forall|i: int| 0 <= i < order@.len() ==> #[trigger] order@[i] < l.len(),
            forall|i: int| 0 <= i < order@.len() ==> rank(#[trigger] order@[i] as int) < k,
            forall|a: int, b: int| 0 <= a < b < order@.len() ==> rank(#[trigger] order@[a] as int) < rank(#[trigger] order@[b] as int),
            forall|j: usize| j < l.len() && rank(j as int) < k ==> #[trigger] order@.contains(j),
        decreases n.len() - k,
    {
        let pos = name_position(names, &names[k]);
        let ghost order_before = order@;
        if pos == k {
            match bank_position(list, &names[k]) {
                Some(j) => {
                    proof {
                        assert(rank(j as int) == k);
                    }
                    order.push(j);
                    proof {
                        assert forall|jj: usize| jj < l.len() && rank(jj as int) < k + 1 implies #[trigger] order@.contains(jj) by {
                            if rank(jj as int) == k {
                                lemma_rank_bounds(n, l[jj as int].id@);
                                assert(l[jj as int].id@ == l[j as int].id@);
                                if jj != j {
                                    if jj < j {
                                        assert(l[jj as int].id@ != l[j as int].id@);
                                    } else {
                                        assert(l[j as int].id@ != l[jj as int].id@);
                                    }
                                }
                                assert(order@[order@.len() - 1] == j);
                            } else {
                                assert(order_before.contains(jj));
                                let w = choose|w: int| 0 <= w < order_before.len() && order_before[w] == jj;
                                assert(order@[w] == jj);
                            }
                        }
                    }
                },
                None => {
                    proof {
                        assert forall|jj: usize| jj < l.len() && rank(jj as int) < k + 1 implies #[trigger] order@.contains(jj) by {
                            if rank(jj as int) == k {
                                lemma_rank_bounds(n, l[jj as int].id@);
                                assert(l[jj as int].id@ != names@[k as int]@);
                            }
                        }
                    }
                },
            }
        } else {
            proof {
                assert forall|jj: usize| jj < l.len() && rank(jj as int) < k + 1 implies #[trigger] order@.contains(jj) by {
                    if rank(jj as int) == k {
                        lemma_rank_bounds(n, l[jj as int].id@);
                        lemma_rank_bounds(n, names@[k as int]@);
                        assert(priority_rank(n, names@[k as int]@) == priority_rank(n, l[jj as int].id@));
                    }
                }
            }
        }
        k = k + 1;
    }
    let mut j: usize = 0;
    while j < list.len()
        invariant
            l == list@,
            n == names@,
            rank == (|j: int| priority_rank(n, l[j].id@)),
            j <= l.len(),
            forall|i: int| 0 <= i < order@.len() ==> #[trigger] order@[i] < l.len(),
            forall|a: int, b: int| 0 <= a < b < order@.len() ==> rank(#[trigger] order@[a] as int) < rank(#[trigger] order@[b] as int)
                || (rank(order@[a] as int) == rank(order@[b] as int) && order@[a] < order@[b]),
            forall|i: int| 0 <= i < order@.len() && rank(#[trigger] order@[i] as int) == n.len() ==> order@[i] < j,
            forall|jj: usize| jj < l.len() && (rank(jj as int) < n.len() || jj < j) ==> #[trigger] order@.contains(jj),
            forall|i: int| 0 <= i < order@.len() ==> rank(#[trigger] order@[i] as int) <= n.len(),
        decreases l.len() - j,
    {
        let pos = name_position(names, &list[j].id);
        let ghost order_before = order@;
        if pos == names.len() {
            order.push(j);
            proof {
                assert forall|jj: usize| jj < l.len() && (rank(jj as int) < n.len() || jj < j + 1) implies #[trigger] order@.contains(jj) by {
                    if jj == j && rank(jj as int) == n.len() {
                        assert(order@[order@.len() - 1] == j);
                    } else {
                        assert(order_before.contains(jj));
                        let w = choose|w: int| 0 <= w < order_before.len() && order_before[w] == jj;
                        assert(order@[w] == jj);
                    }
                }
            }
        } else {
            proof {
                lemma_rank_bounds(n, l[j as int].id@);
            }
        }
        j = j + 1;
    }
    proof {
        assert forall|jj: usize| jj < l.len() implies #[trigger] order@.contains(jj) by {
            lemma_rank_bounds(n, l[jj as int].id@);
        }
    }
    order
}


proof fn lemma_matches_equivalence(a: MidiPatch, b: MidiPatch, c: MidiPatch)
    ensures
        spec_patch_matches(a, a),
        spec_patch_matches(a, b) ==> spec_patch_matches(b, a),
        spec_patch_matches(a, b) && spec_patch_matches(b, c) ==> spec_patch_matches(a, c),
{
}

/// `d[i]` is an element of `c` that is the first of its MIDI string in `c`.
pub open spec fn is_first_of_key(c: Seq<(BasicPreset, usize)>, x: (BasicPreset, usize)) -> bool {
    exists|k: int|
        0 <= k < c.len() && #[trigger] c[k] == x && forall|k2: int|
            0 <= k2 < k ==> !spec_patch_matches(preset_patch(#[trigger] c[k2].0), preset_patch(c[k].0))
}

proof fn lemma_dedup_props(c: Seq<(BasicPreset, usize)>)
    ensures
        forall|i: int| 0 <= i < dedup_first(c).len() ==> is_first_of_key(c, #[trigger] dedup_first(c)[i]),
        forall|k: int| 0 <= k < c.len() ==> key_in(dedup_first(c), (#[trigger] c[k]).0),
        forall|i: int, j: int|
            0 <= i < j < dedup_first(c).len() ==> !spec_patch_matches(
                preset_patch(#[trigger] dedup_first(c)[i].0),
                preset_patch(#[trigger] dedup_first(c)[j].0),
            ),
    decreases c.len(),
{
    if c.len() > 0 {
        let c0 = c.drop_last();
        let x = c.last();
        lemma_dedup_props(c0);
        let d0 = dedup_first(c0);
        let d = dedup_first(c);
        assert forall|i: int| 0 <= i < d0.len() implies is_first_of_key(c, #[trigger] d0[i]) by {
            assert(is_first_of_key(c0, d0[i]));
            let k = choose|k: int|
                0 <= k < c0.len() && #[trigger] c0[k] == d0[i] && forall|k2: int|
                    0 <= k2 < k ==> !spec_patch_matches(preset_patch(#[trigger] c0[k2].0), preset_patch(c0[k].0));
            assert(c[k] == c0[k]);
            assert forall|k2: int| 0 <= k2 < k implies !spec_patch_matches(preset_patch(#[trigger] c[k2].0), preset_patch(c[k].0)) by {
                assert(c[k2] == c0[k2]);
            }
        }
        if key_in(d0, x.0) {
            assert forall|k: int| 0 <= k < c.len() implies key_in(d, (#[trigger] c[k]).0) by {
                if k < c0.len() {
                    assert(c[k] == c0[k]);
                    assert(key_in(d0, c0[k].0));
                }
            }
        } else {
            assert(d == d0.push(x));
            assert forall|i: int| 0 <= i < d.len() implies is_first_of_key(c, #[trigger] d[i]) by {
                if i < d0.len() {
                    assert(d[i] == d0[i]);
                } else {
                    let k = c.len() - 1;
                    assert(c[k] == x);
                    assert forall|k2: int| 0 <= k2 < k implies !spec_patch_matches(preset_patch(#[trigger] c[k2].0), preset_patch(c[k].0)) by {
                        assert(c[k2] == c0[k2]);
                        assert(key_in(d0, c0[k2].0));
                        if spec_patch_matches(preset_patch(c[k2].0), preset_patch(c[k].0)) {
                            let j = choose|j: int| 0 <= j < d0.len() && spec_patch_matches(preset_patch(#[trigger] d0[j].0), preset_patch(c0[k2].0));
                            lemma_matches_equivalence(preset_patch(d0[j].0), preset_patch(c0[k2].0), preset_patch(x.0));
                            assert(key_in(d0, x.0));
                        }
                    }
                }
            }
            assert forall|k: int| 0 <= k < c.len() implies key_in(d, (#[trigger] c[k]).0) by {
                if k < c0.len() {
                    assert(c[k] == c0[k]);
                    assert(key_in(d0, c0[k].0));
                    let j = choose|j: int| 0 <= j < d0.len() && spec_patch_matches(preset_patch(#[trigger] d0[j].0), preset_patch(c0[k].0));
                    assert(d[j] == d0[j]);
                } else {
                    assert(d[d0.len() as int] == x);
                    lemma_matches_equivalence(preset_patch(x.0), preset_patch(x.0), preset_patch(x.0));
                }
            }
            assert forall|i: int, j: int| 0 <= i < j < d.len() implies !spec_patch_matches(preset_patch(#[trigger] d[i].0), preset_patch(#[trigger] d[j].0)) by {
                if j < d0.len() {
                    assert(d[i] == d0[i] && d[j] == d0[j]);
                } else {
                    assert(d[i] == d0[i]);
                    assert(d[j] == x);
                }
            }
        }
    }
}

proof fn lemma_sorted_same_elements_equal(a: Seq<(BasicPreset, usize)>, b: Seq<(BasicPreset, usize)>)
    requires
        sorted_by_patch(a),
        sorted_by_patch(b),
        same_elements(a, b),
    ensures
        a == b,
    decreases a.len() + b.len(),
{
    if a.len() == 0 || b.len() == 0 {
        if a.len() > 0 {
            assert(b.contains(a[0]));
        }
        if b.len() > 0 {
            assert(a.contains(b[0]));
        }
        assert(a =~= b);
    } else {
        assert(b.contains(a[0]));
        assert(a.contains(b[0]));
        let ja = choose|j: int| 0 <= j < a.len() && a[j] == b[0];
        let jb = choose|j: int| 0 <= j < b.len() && b[j] == a[0];
        if a[0] != b[0] {
            assert(ja > 0 && jb > 0);
            assert(spec_patch_less(preset_patch(a[0].0), preset_patch(a[ja].0)));
            assert(spec_patch_less(preset_patch(b[0].0), preset_patch(b[jb].0)));
            lemma_patch_less_is_strict_order(preset_patch(a[0].0), preset_patch(b[0].0), preset_patch(a[0].0));
        }
        let a1 = a.drop_first();
        let b1 = b.drop_first();
        assert forall|i: int| 0 <= i < a1.len() implies b1.contains(#[trigger] a1[i]) by {
            assert(a1[i] == a[i + 1]);
            assert(b.contains(a[i + 1]));
            let j = choose|j: int| 0 <= j < b.len() && b[j] == a[i + 1];
            if j == 0 {
                assert(spec_patch_less(preset_patch(a[0].0), preset_patch(a[i + 1].0)));
                lemma_patch_less_is_strict_order(preset_patch(a[0].0), preset_patch(a[0].0), preset_patch(a[0].0));
            }
            assert(b1[j - 1] == b[j]);
        }
        assert forall|i: int| 0 <= i < b1.len() implies a1.contains(#[trigger] b1[i]) by {
            assert(b1[i] == b[i + 1]);
            assert(a.contains(b[i + 1]));
            let j = choose|j: int| 0 <= j < a.len() && a[j] == b[i + 1];
            if j == 0 {
                assert(spec_patch_less(preset_patch(b[0].0), preset_patch(b[i + 1].0)));
                lemma_patch_less_is_strict_order(preset_patch(b[0].0), preset_patch(b[0].0), preset_patch(b[0].0));
            }
            assert(a1[j - 1] == a[j]);
        }
        assert forall|i: int, j: int| 0 <= i < j < a1.len() implies spec_patch_less(preset_patch(#[trigger] a1[i].0), preset_patch(#[trigger] a1[j].0)) by {
            assert(a1[i] == a[i + 1] && a1[j] == a[j + 1]);
        }
        assert forall|i: int, j: int| 0 <= i < j < b1.len() implies spec_patch_less(preset_patch(#[trigger] b1[i].0), preset_patch(#[trigger] b1[j].0)) by {
            assert(b1[i] == b[i + 1] && b1[j] == b[j + 1]);
        }
        lemma_sorted_same_elements_equal(a1, b1);
        assert(a.len() == b.len());
        assert forall|i: int| 0 <= i < a.len() implies a[i] == b[i] by {
            if i > 0 {
                assert(a[i] == a1[i - 1]);
                assert(b[i] == b1[i - 1]);
            }
        }
        assert(a =~= b);
    }
}

/// The selectable preset table (and hence the preset list) is a function of the bank
/// stack: two tables of the same stack are equal.
pub proof fn lemma_preset_table_is_determined(
    list: Seq<SoundBankManagerListEntry>,
    t1: Seq<(BasicPreset, usize)>,
    t2: Seq<(BasicPreset, usize)>,
)
    requires
        is_preset_table(list, t1),
        is_preset_table(list, t2),
    ensures
        t1 == t2,
{
    let d = dedup_first(candidates(list));
    assert forall|i: int| 0 <= i < t1.len() implies t2.contains(#[trigger] t1[i]) by {
        assert(d.contains(t1[i]));
        let j = choose|j: int| 0 <= j < d.len() && d[j] == t1[i];
        assert(t2.contains(d[j]));
    }
    assert forall|i: int| 0 <= i < t2.len() implies t1.contains(#[trigger] t2[i]) by {
        assert(d.contains(t2[i]));
        let j = choose|j: int| 0 <= j < d.len() && d[j] == t2[i];
        assert(t1.contains(d[j]));
    }
    lemma_sorted_same_elements_equal(t1, t2);
}

/// The preset table keeps one preset per MIDI string, the one of the most important bank
/// (earliest in bank order, then in the bank's preset order): every entry is the first
/// candidate of its MIDI string, every candidate's MIDI string has an entry, no two
/// entries share a MIDI string, and drum kits come after melodic presets.
pub proof fn lemma_preset_table_first_bank_wins(
    list: Seq<SoundBankManagerListEntry>,
    t: Seq<(BasicPreset, usize)>,
)
    requires
        is_preset_table(list, t),
    ensures
        forall|j: int| 0 <= j < t.len() ==> is_first_of_key(candidates(list), #[trigger] t[j]),
        forall|k: int|
            0 <= k < candidates(list).len() ==> key_in(t, (#[trigger] candidates(list)[k]).0),
        forall|i: int, j: int|
            0 <= i < j < t.len() ==> !spec_patch_matches(
                preset_patch(#[trigger] t[i].0),
                preset_patch(#[trigger] t[j].0),
            ),
        forall|i: int, j: int|
            0 <= i < j < t.len() && (#[trigger] t[i]).0.is_gm_gs_drum ==> (#[trigger] t[j]).0.is_gm_gs_drum,
{
    let c = candidates(list);
    let d = dedup_first(c);
    lemma_dedup_props(c);
    assert forall|j: int| 0 <= j < t.len() implies is_first_of_key(c, #[trigger] t[j]) by {
        assert(d.contains(t[j]));
        let i = choose|i: int| 0 <= i < d.len() && d[i] == t[j];
        assert(is_first_of_key(c, d[i]));
    }
    assert forall|k: int| 0 <= k < c.len() implies key_in(t, (#[trigger] c[k]).0) by {
        assert(key_in(d, c[k].0));
        lemma_key_in_transfer(t, d, c[k].0);
    }
    assert forall|i: int, j: int| 0 <= i < j < t.len() implies !spec_patch_matches(preset_patch(#[trigger] t[i].0), preset_patch(#[trigger] t[j].0)) by {
        assert(d.contains(t[i]));
        assert(d.contains(t[j]));
        let a = choose|a: int| 0 <= a < d.len() && d[a] == t[i];
        let b = choose|b: int| 0 <= b < d.len() && d[b] == t[j];
        assert(spec_patch_less(preset_patch(t[i].0), preset_patch(t[j].0)));
        if a == b {
            lemma_patch_less_is_strict_order(preset_patch(t[i].0), preset_patch(t[i].0), preset_patch(t[i].0));
        } else if a < b {
        } else {
            lemma_matches_equivalence(preset_patch(t[i].0), preset_patch(t[j].0), preset_patch(t[i].0));
        }
    }
    assert forall|i: int, j: int| 0 <= i < j < t.len() && (#[trigger] t[i]).0.is_gm_gs_drum implies (#[trigger] t[j]).0.is_gm_gs_drum by {
        assert(spec_patch_less(preset_patch(t[i].0), preset_patch(t[j].0)));
    }
}
} // verus!
