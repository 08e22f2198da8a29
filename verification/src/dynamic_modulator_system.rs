//! Modulators assigned at run time, by system exclusive messages, to one channel.
//! Each is identified by its source, destination and polarity.
use vstd::prelude::*;
use vstd::string::*;
use crate::controller_tables::NON_CC_INDEX_OFFSET;
use crate::modulator::{spec_default_source, Modulator, ModulatorSource};
use crate::modulator_sources::CURVE_LINEAR;
use crate::text::{bool_string, bool_text, decimal_string, decimal_text};

verus! {

/// A dynamic modulator with its identifier.
pub struct DynamicModulatorEntry {
    pub modulator: Modulator,
    /// `"<source>-<destination>-<bipolar>-<negative>"`.
    pub id: String,
}

impl View for DynamicModulatorEntry {
    type V = (Modulator, Seq<char>);

    open spec fn view(&self) -> (Modulator, Seq<char>) {
        (self.modulator, self.id@)
    }
}

impl Clone for DynamicModulatorEntry {
    fn clone(&self) -> (r: Self)
        ensures
            r@ == self@,
    {
        DynamicModulatorEntry { modulator: self.modulator, id: self.id.clone() }
    }
}

/// The modulators of a channel, in the order they were added.
pub struct DynamicModulatorSystem {
    pub modulator_list: Vec<DynamicModulatorEntry>,
}

/// The entries of a list, each as (modulator, identifier).
pub open spec fn entries_view(list: Seq<DynamicModulatorEntry>) -> Seq<(Modulator, Seq<char>)> {
    list.map_values(|e: DynamicModulatorEntry| e@)
}

impl View for DynamicModulatorSystem {
    type V = Seq<(Modulator, Seq<char>)>;

    open spec fn view(&self) -> Seq<(Modulator, Seq<char>)> {
        entries_view(self.modulator_list@)
    }
}

/// The identifier of a dynamic modulator:
/// `"<source>-<destination>-<bipolar>-<negative>"`, numbers in decimal.
pub open spec fn modulator_id_text(
    source: usize,
    destination: u16,
    is_bipolar: bool,
    is_negative: bool,
) -> Seq<char> {
    decimal_text(source as nat) + seq!['-'] + decimal_text(destination as nat) + seq!['-']
        + bool_text(is_bipolar) + seq!['-'] + bool_text(is_negative)
}

/// The primary source of a new dynamic modulator: sources below the non-controller
/// offset are MIDI controllers, the others are modulator sources (offset removed).
/// Linear, never negative.
pub open spec fn spec_dynamic_source(source: usize, is_bipolar: bool) -> ModulatorSource {
    ModulatorSource {
        index: if source >= NON_CC_INDEX_OFFSET { (source - NON_CC_INDEX_OFFSET) as u8 } else { source as u8 },
        curve_type: CURVE_LINEAR,
        is_cc: source < NON_CC_INDEX_OFFSET,
        is_bipolar,
        is_negative: false,
    }
}

/// A new dynamic modulator: the dynamic source, no secondary source, linear
/// transform, not an effect or resonant modulator.
pub open spec fn spec_dynamic_modulator(
    source: usize,
    destination: u16,
    amount_128ths: i32,
    is_bipolar: bool,
) -> Modulator {
    Modulator {
        primary_source: spec_dynamic_source(source, is_bipolar),
        secondary_source: spec_default_source(),
        destination,
        transform_amount_128ths: amount_128ths,
        transform_type: 0,
        is_effect_modulator: false,
        is_default_resonant_modulator: false,
    }
}

/// A modulator with another amount.
pub open spec fn with_amount(m: Modulator, amount_128ths: i32) -> Modulator {
    Modulator {
        primary_source: m.primary_source,
        secondary_source: m.secondary_source,
        destination: m.destination,
        transform_amount_128ths: amount_128ths,
        transform_type: m.transform_type,
        is_effect_modulator: m.is_effect_modulator,
        is_default_resonant_modulator: m.is_default_resonant_modulator,
    }
}

/// Whether `i` is the first position holding identifier `id`.
pub open spec fn is_first_with_id(v: Seq<(Modulator, Seq<char>)>, id: Seq<char>, i: int) -> bool {
    &&& 0 <= i < v.len()
    &&& v[i].1 == id
    &&& forall|j: int| 0 <= j < i ==> v[j].1 != id
}

/// The entries left after every entry with identifier `id` is removed.
pub open spec fn without_id(v: Seq<(Modulator, Seq<char>)>, id: Seq<char>) -> Seq<(Modulator, Seq<char>)> {
    v.filter(|e: (Modulator, Seq<char>)| e.1 != id)
}

/// Gives the first entry with identifier `id` the new amount, or, where there is
/// none, appends `fresh` under that identifier.
pub open spec fn set_first_or_push(
    base: Seq<(Modulator, Seq<char>)>,
    id: Seq<char>,
    amount_128ths: i32,
    fresh: Modulator,
) -> Seq<(Modulator, Seq<char>)> {
    if exists|i: int| is_first_with_id(base, id, i) {
        let i = choose|i: int| is_first_with_id(base, id, i);
        base.update(i, (with_amount(base[i].0, amount_128ths), id))
    } else {
        base.push((fresh, id))
    }
}

/// The list after a modulator is set: an amount of zero first removes the entries
/// with that identifier. Then the first entry with the identifier gets the new
/// amount, or, where there is none, a new modulator is appended.
pub open spec fn spec_set_modulator(
    v: Seq<(Modulator, Seq<char>)>,
    source: usize,
    destination: u16,
    amount_128ths: i32,
    is_bipolar: bool,
    is_negative: bool,
) -> Seq<(Modulator, Seq<char>)> {
    let id = modulator_id_text(source, destination, is_bipolar, is_negative);
    let base = if amount_128ths == 0 { without_id(v, id) } else { v };
    set_first_or_push(
        base,
        id,
        amount_128ths,
        spec_dynamic_modulator(source, destination, amount_128ths, is_bipolar),
    )
}

/// No identifier occurs twice.
pub open spec fn ids_unique(v: Seq<(Modulator, Seq<char>)>) -> bool {
    forall|i: int, j: int| 0 <= i < j < v.len() ==> v[i].1 != v[j].1
}

/// Removing the entries with one identifier keeps the others in order, and leaves
/// none with that identifier; it keeps identifiers unique.
pub proof fn lemma_without_id(v: Seq<(Modulator, Seq<char>)>, id: Seq<char>)
    ensures
        forall|k: int| 0 <= k < without_id(v, id).len() ==> #[trigger] without_id(v, id)[k].1 != id,
        forall|k: int| 0 <= k < without_id(v, id).len() ==> v.contains(#[trigger] without_id(v, id)[k]),
        ids_unique(v) ==> ids_unique(without_id(v, id)),
    decreases v.len(),
{
    reveal(Seq::filter);
    if v.len() > 0 {
        let d = v.drop_last();
        lemma_without_id(d, id);
        assert forall|k: int| 0 <= k < without_id(d, id).len() implies v.contains(
            #[trigger] without_id(d, id)[k],
        ) by {
            let j = choose|j: int| 0 <= j < d.len() && d[j] == without_id(d, id)[k];
            assert(v[j] == d[j]);
        }
        if ids_unique(v) {
            assert(ids_unique(d));
            if v.last().1 != id {
                let w = without_id(v, id);
                assert(w == without_id(d, id).push(v.last()));
                assert forall|i: int, j: int| 0 <= i < j < w.len() implies w[i].1 != w[j].1 by {
                    if j == w.len() - 1 {
                        let e = without_id(d, id)[i];
                        assert(d.contains(e));
                        let m = choose|m: int| 0 <= m < d.len() && d[m] == e;
                        assert(v[m] == d[m]);
                        assert(v[m].1 != v[v.len() - 1].1);
                    }
                }
            }
        }
    }
}

impl Default for DynamicModulatorSystem {
    fn default() -> (r: Self)
        ensures
            r@ == Seq::<(Modulator, Seq<char>)>::empty(),
    {
        DynamicModulatorSystem { modulator_list: Vec::new() }
    }
}

impl DynamicModulatorSystem {
    /// A system with no modulators.
    pub fn new() -> (r: Self)
        ensures
            r@ == Seq::<(Modulator, Seq<char>)>::empty(),
    {
        DynamicModulatorSystem { modulator_list: Vec::new() }
    }

    /// Removes every dynamic modulator.
    pub fn reset_modulators(&mut self)
        ensures
            final(self)@ == Seq::<(Modulator, Seq<char>)>::empty(),
    {
        self.modulator_list.clear();
        proof {
            assert(self@ =~= Seq::<(Modulator, Seq<char>)>::empty());
        }
    }

    /// The identifier of a dynamic modulator:
    /// `"<source>-<destination>-<bipolar>-<negative>"`.
    pub fn get_modulator_id(source: usize, destination: u16, is_bipolar: bool, is_negative: bool) -> (r: String)
        ensures
            r@ == modulator_id_text(source, destination, is_bipolar, is_negative),
    {
        let mut s = decimal_string(source as u64);
        proof { reveal_strlit("-"); }
        s.append("-");
        let d = decimal_string(destination as u64);
        s.append(d.as_str());
        s.append("-");
        let b = bool_string(is_bipolar);
        s.append(b.as_str());
        s.append("-");
        let n = bool_string(is_negative);
        s.append(n.as_str());
        s
    }

    /// Removes every modulator with the given identifier, keeping the others in order.
    pub fn delete_modulator(&mut self, id: &str)
        ensures
            final(self)@ == without_id(old(self)@, id@),
    {
        let target = id.to_owned();
        let ghost old_v = self@;
        let ghost pred = |e: (Modulator, Seq<char>)| e.1 != id@;
        let mut kept: Vec<DynamicModulatorEntry> = Vec::new();
        let mut i: usize = 0;
        while i < self.modulator_list.len()
            invariant
                i <= self.modulator_list@.len(),
                old_v == self@,
                target@ == id@,
                pred == (|e: (Modulator, Seq<char>)| e.1 != id@),
                entries_view(kept@) == old_v.subrange(0, i as int).filter(pred),
            decreases self.modulator_list@.len() - i,
        {
            let keep = !(self.modulator_list[i].id == target);
            proof {
                assert(old_v.subrange(0, i + 1).drop_last() =~= old_v.subrange(0, i as int));
                assert(old_v[i as int] == self.modulator_list@[i as int]@);
                assert(old_v.subrange(0, i + 1).filter(pred) == if pred(old_v[i as int]) {
                    old_v.subrange(0, i as int).filter(pred).push(old_v[i as int])
                } else {
                    old_v.subrange(0, i as int).filter(pred)
                }) by {
                    reveal(Seq::filter);
                }
            }
            if keep {
                let e = self.modulator_list[i].clone();
                let ghost before = kept@;
                kept.push(e);
                proof {
                    assert(entries_view(kept@) =~= entries_view(before).push(e@));
                }
            }
            i = i + 1;
        }
        proof {
            assert(old_v.subrange(0, old_v.len() as int) =~= old_v);
        }
        self.modulator_list = kept;
    }

    /// The position of the first modulator with the given identifier.
    fn find_modulator(&self, id: &String) -> (r: Option<usize>)
        ensures
            r matches Some(i) ==> is_first_with_id(self@, id@, i as int),
            r is None ==> forall|j: int| 0 <= j < self@.len() ==> self@[j].1 != id@,
    {
        let mut i: usize = 0;
        while i < self.modulator_list.len()
            invariant
                i <= self.modulator_list@.len(),
                forall|j: int| 0 <= j < i ==> self@[j].1 != id@,
            decreases self.modulator_list@.len() - i,
        {
            if self.modulator_list[i].id == *id {
                return Some(i);
            }
            i = i + 1;
        }
        None
    }

    /// Sets a dynamic modulator. `source` is a MIDI controller number below the
    /// non-controller offset, and a modulator source number plus that offset
    /// otherwise. The amount is in units of 1/128. An amount of zero first removes
    /// the modulators with the same identifier; then the first modulator with the
    /// identifier gets the new amount, or a new linear modulator is appended.
    /// Identifiers that were unique stay unique, and the identifier is then held by
    /// exactly one modulator, which has the new amount.
    pub fn set_modulator(
        &mut self,
        source: usize,
        destination: u16,
        amount_128ths: i32,
        is_bipolar: bool,
        is_negative: bool,
    )
        ensures
            final(self)@ == spec_set_modulator(
                old(self)@,
                source,
                destination,
                amount_128ths,
                is_bipolar,
                is_negative,
            ),
            ids_unique(old(self)@) ==> ids_unique(final(self)@),
            ids_unique(old(self)@) ==> exists|i: int|
                0 <= i < final(self)@.len()
                && final(self)@[i].1 == modulator_id_text(source, destination, is_bipolar, is_negative)
                && final(self)@[i].0.transform_amount_128ths == amount_128ths,
    {
        let id = Self::get_modulator_id(source, destination, is_bipolar, is_negative);
        let ghost idv = id@;
        let ghost v0 = self@;
        if amount_128ths == 0 {
            self.delete_modulator(id.as_str());
        }
        let ghost base = self@;
        proof {
            lemma_without_id(v0, idv);
            assert(base == if amount_128ths == 0 { without_id(v0, idv) } else { v0 });
            assert(spec_set_modulator(v0, source, destination, amount_128ths, is_bipolar, is_negative)
                == set_first_or_push(base, idv, amount_128ths,
                    spec_dynamic_modulator(source, destination, amount_128ths, is_bipolar)));
        }
        match self.find_modulator(&id) {
            Some(i) => {
                self.modulator_list[i].modulator.transform_amount_128ths = amount_128ths;
                proof {
                    assert(is_first_with_id(base, idv, i as int));
                    let c = choose|k: int| is_first_with_id(base, idv, k);
                    assert(c == i as int);
                    assert(self@ =~= base.update(i as int, (with_amount(base[i as int].0, amount_128ths), idv)));
                    assert(self@[i as int].1 == idv);
                    assert(self@ == spec_set_modulator(v0, source, destination, amount_128ths, is_bipolar, is_negative));
                }
            },
            None => {
                let index: u8 = if source >= NON_CC_INDEX_OFFSET {
                    #[verifier::truncate] ((source - NON_CC_INDEX_OFFSET) as u8)
                } else {
                    #[verifier::truncate] (source as u8)
                };
                let primary = ModulatorSource {
                    index,
                    curve_type: CURVE_LINEAR,
                    is_cc: source < NON_CC_INDEX_OFFSET,
                    is_bipolar,
                    is_negative: false,
                };
                let modulator = Modulator::new(
                    primary,
                    ModulatorSource::default(),
                    destination,
                    amount_128ths,
                    0,
                    false,
                    false,
                );
                let entry = DynamicModulatorEntry { modulator, id };
                self.modulator_list.push(entry);
                proof {
                    assert(!exists|k: int| is_first_with_id(base, idv, k));
                    assert(self@ =~= base.push(
                        (spec_dynamic_modulator(source, destination, amount_128ths, is_bipolar), idv),
                    ));
                    assert(self@[base.len() as int].1 == idv);
                    assert(self@ == spec_set_modulator(v0, source, destination, amount_128ths, is_bipolar, is_negative));
                }
            },
        }
    }
}

} // verus!
