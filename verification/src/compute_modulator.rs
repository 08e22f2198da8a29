//! Pieces of modulator computation that are pure integer logic: the source filter of a
//! partial recomputation, the channel interface it reads, offset generator values and
//! the decoding of SoundFont2 modulator source enums.
use vstd::prelude::*;

verus! {

/// Which modulators a recomputation covers.
#[derive(Clone, Copy, Debug, PartialEq, Eq, Structural)]
pub enum SourceFilter {
    /// Compute all modulators (the default).
    All,
    /// Only modulators whose source is a non-controller modulator source.
    NonCC,
    /// Only modulators whose source is a MIDI controller.
    CC,
}

impl Default for SourceFilter {
    fn default() -> (r: Self)
        ensures
            r == SourceFilter::All,
    {
        SourceFilter::All
    }
}

/// What modulator computation reads from a MIDI channel.
pub trait ChannelContext {
    /// Whether generator offsets are enabled.
    fn generator_offsets_enabled(&self) -> bool;

    /// Per-channel generator offsets, one per generator.
    fn generator_offsets(&self) -> &[i16];

    /// Whether per-note pitch wheels are in use.
    fn per_note_pitch(&self) -> bool;

    /// Per-note pitch wheel values, indexed by key.
    fn pitch_wheels(&self) -> &[i16];

    /// The extended 14-bit controller table.
    fn midi_controllers(&self) -> &[i16];
}

/// `a + b` clamped to the `i16` range.
pub open spec fn saturating_add_i16(a: i16, b: i16) -> i16 {
    if a + b > i16::MAX {
        i16::MAX
    } else if a + b < i16::MIN {
        i16::MIN
    } else {
        (a + b) as i16
    }
}

/// The generator value at `i` after the channel's offset is applied (saturating), or
/// the plain value when offsets are disabled. Missing entries count as 0.
pub open spec fn spec_effective_base(
    gens: Seq<i16>,
    offsets: Seq<i16>,
    i: int,
    offsets_enabled: bool,
) -> i16 {
    let base = if 0 <= i < gens.len() { gens[i] } else { 0i16 };
    if offsets_enabled {
        let off = if 0 <= i < offsets.len() { offsets[i] } else { 0i16 };
        saturating_add_i16(base, off)
    } else {
        base
    }
}

/// The base value of generator `i` with the channel's generator offset applied
/// (saturating at the `i16` bounds). Out-of-range indices read as 0.
pub fn effective_base(gens: &[i16], offsets: &[i16], i: usize, offsets_enabled: bool) -> (r: i16)
    ensures
        r == spec_effective_base(gens@, offsets@, i as int, offsets_enabled),
{
    let base: i16 = if i < gens.len() { gens[i] } else { 0 };
    if offsets_enabled {
        let off: i16 = if i < offsets.len() { offsets[i] } else { 0 };
        let sum: i32 = base as i32 + off as i32;
        if sum > i16::MAX as i32 {
            i16::MAX
        } else if sum < i16::MIN as i32 {
            i16::MIN
        } else {
            sum as i16
        }
    } else {
        base
    }
}

/// True when bit 7 (the controller flag) of a SoundFont2 source enum is set.
pub fn source_is_cc(source_enum: u16) -> (r: bool)
    ensures
        r == ((source_enum / 128) % 2 == 1),
{
    assert(((source_enum >> 7) & 1 != 0) == ((source_enum / 128) % 2 == 1)) by (bit_vector);
    (source_enum >> 7) & 1 != 0
}

/// The source index held in bits 0-6 of a SoundFont2 source enum.
pub fn source_index(source_enum: u16) -> (r: usize)
    ensures
        r == source_enum % 128,
{
    assert((source_enum & 0x7f) == source_enum % 128) by (bit_vector);
    (source_enum & 0x7F) as usize
}

/// Whether a modulator with these primary and secondary source enums is recomputed
/// by a pass with `filter` for source `index`: every modulator for a full pass; for
/// a partial one, a modulator one of whose sources has the filter's kind (controller
/// or not) and that index.
pub open spec fn spec_modulator_is_affected(source: u16, secondary: u16, filter: SourceFilter, index: usize) -> bool {
    match filter {
        SourceFilter::All => true,
        _ => {
            let target_is_cc = filter == SourceFilter::CC;
            ||| ((source / 128) % 2 == 1) == target_is_cc && source % 128 == index
            ||| ((secondary / 128) % 2 == 1) == target_is_cc && secondary % 128 == index
        },
    }
}

/// Whether a modulator is recomputed by a pass (see [`spec_modulator_is_affected`]).
pub fn modulator_is_affected(source: u16, secondary: u16, filter: SourceFilter, index: usize) -> (r: bool)
    ensures
        r == spec_modulator_is_affected(source, secondary, filter, index),
{
    match filter {
        SourceFilter::All => true,
        _ => {
            let target_is_cc = match filter {
                SourceFilter::CC => true,
                _ => false,
            };
            (source_is_cc(source) == target_is_cc && source_index(source) == index)
                || (source_is_cc(secondary) == target_is_cc && source_index(secondary) == index)
        },
    }
}

/// The sum of the values of the first `n` modulators whose destination is `dest`.
pub open spec fn destination_sum(destinations: Seq<i16>, values: Seq<i16>, dest: i16, n: int) -> int
    decreases n,
{
    if n <= 0 {
        0
    } else {
        destination_sum(destinations, values, dest, n - 1) + if destinations[n - 1] == dest {
            if n - 1 < values.len() { values[n - 1] as int } else { 0 }
        } else {
            0
        }
    }
}

proof fn lemma_destination_sum_bounds(destinations: Seq<i16>, values: Seq<i16>, dest: i16, n: int)
    requires
        0 <= n,
    ensures
        -32768 * n <= destination_sum(destinations, values, dest, n) <= 32767 * n,
    decreases n,
{
    if n > 0 {
        lemma_destination_sum_bounds(destinations, values, dest, n - 1);
    }
}

/// A destination's output in a partial pass: its base value plus the value of every
/// modulator aiming at it (a missing value counts as 0). `destinations` has one
/// entry per modulator.
pub fn destination_output(base: i32, destinations: &[i16], values: &[i16], dest: i16) -> (r: i32)
    requires
        -32768 <= base <= 32767,
        destinations@.len() <= 65535,
    ensures
        r == base + destination_sum(destinations@, values@, dest, destinations@.len() as int),
{
    let mut sum: i32 = base;
    let mut j: usize = 0;
    while j < destinations.len()
        invariant
            j <= destinations@.len(),
            destinations@.len() <= 65535,
            -32768 <= base <= 32767,
            sum == base + destination_sum(destinations@, values@, dest, j as int),
        decreases destinations@.len() - j,
    {
        proof {
            lemma_destination_sum_bounds(destinations@, values@, dest, j as int);
            lemma_destination_sum_bounds(destinations@, values@, dest, j as int + 1);
        }
        if destinations[j] == dest {
            let v: i32 = if j < values.len() { values[j] as i32 } else { 0 };
            sum = sum + v;
        }
        j = j + 1;
    }
    sum
}

/// `v` limited to a generator's range: raised to `min`, then lowered to `max`.
pub open spec fn spec_clamp_to_limit(v: int, min: int, max: int) -> int {
    let raised = if v < min { min } else { v };
    if raised > max { max } else { raised }
}

/// A generator value limited to the generator's range, as an `i16`; both bounds of
/// the range must be `i16` values.
pub fn clamp_to_limit(v: i32, min: i32, max: i32) -> (r: i16)
    requires
        -32768 <= min <= 32767,
        -32768 <= max <= 32767,
    ensures
        r == spec_clamp_to_limit(v as int, min as int, max as int),
{
    let raised = if v < min { min } else { v };
    let limited = if raised > max { max } else { raised };
    limited as i16
}

/// The destinations of a list of modulators given as (primary source, secondary
/// source, destination).
pub open spec fn destinations_of(modulators: Seq<(u16, u16, i16)>) -> Seq<i16> {
    modulators.map_values(|m: (u16, u16, i16)| m.2)
}

/// Whether modulator `k` is recomputed by a pass and aims at generator `g` of a
/// table of `len` generators.
pub open spec fn recomputes_into(
    modulators: Seq<(u16, u16, i16)>,
    filter: SourceFilter,
    index: usize,
    k: int,
    g: int,
) -> bool {
    &&& spec_modulator_is_affected(modulators[k].0, modulators[k].1, filter, index)
    &&& modulators[k].2 as int == g
}

/// Whether one of the first `n` modulators is recomputed by the pass and aims at
/// generator `g`.
pub open spec fn recomputed_in_prefix(
    modulators: Seq<(u16, u16, i16)>,
    filter: SourceFilter,
    index: usize,
    g: int,
    n: int,
) -> bool {
    exists|k: int| 0 <= k < n && #[trigger] recomputes_into(modulators, filter, index, k, g)
}

/// The limits of generator `g`, if it has any.
pub open spec fn limit_of(limits: Seq<Option<(i32, i32)>>, g: int) -> Option<(i32, i32)> {
    if 0 <= g < limits.len() { limits[g] } else { None }
}

/// The new value of generator `g` in a partial pass: its base value (offset
/// applied) plus the values of every modulator aiming at it, limited to its range.
pub open spec fn recomputed_value(
    modulators: Seq<(u16, u16, i16)>,
    generators: Seq<i16>,
    offsets: Seq<i16>,
    offsets_enabled: bool,
    values: Seq<i16>,
    limits: Seq<Option<(i32, i32)>>,
    g: int,
) -> int {
    let (min, max) = limit_of(limits, g)->0;
    spec_clamp_to_limit(
        spec_effective_base(generators, offsets, g, offsets_enabled) + destination_sum(
            destinations_of(modulators),
            values,
            g as i16,
            modulators.len() as int,
        ),
        min as int,
        max as int,
    )
}

/// The modulated generators after a partial pass over the first `n` modulators:
/// a generator that one of them recomputes, and that has limits, takes its
/// recomputed value; every other generator keeps its value.
pub open spec fn spec_recompute_affected(
    modulators: Seq<(u16, u16, i16)>,
    generators: Seq<i16>,
    offsets: Seq<i16>,
    offsets_enabled: bool,
    values: Seq<i16>,
    filter: SourceFilter,
    index: usize,
    limits: Seq<Option<(i32, i32)>>,
    modulated: Seq<i16>,
    n: int,
) -> Seq<i16> {
    Seq::new(
        modulated.len(),
        |g: int|
            if recomputed_in_prefix(modulators, filter, index, g, n) && limit_of(limits, g) is Some {
                recomputed_value(modulators, generators, offsets, offsets_enabled, values, limits, g) as i16
            } else {
                modulated[g]
            },
    )
}

/// Whether every limit is a pair of `i16` values.
pub open spec fn limits_fit_i16(limits: Seq<Option<(i32, i32)>>) -> bool {
    forall|g: int|
        0 <= g < limits.len() ==> match #[trigger] limits[g] {
            Some((lo, hi)) => -32768 <= lo <= 32767 && -32768 <= hi <= 32767,
            None => true,
        }
}

/// A partial modulator pass after a controller change: for every modulator that the
/// filter selects (in order) and that aims at a generator of `modulated`, the
/// generator becomes its base value (with the channel's offset) plus the values of
/// all modulators aiming at it, limited to the generator's range; generators
/// without limits are left as they are. `values` holds each modulator's value
/// (computed by the host for the selected modulators), `limits` each generator's
/// range.
pub fn recompute_affected(
    modulators: &[(u16, u16, i16)],
    generators: &[i16],
    offsets: &[i16],
    offsets_enabled: bool,
    values: &[i16],
    filter: SourceFilter,
    index: usize,
    limits: &[Option<(i32, i32)>],
    modulated: &mut Vec<i16>,
)
    requires
        modulators@.len() == values@.len(),
        modulators@.len() <= 65535,
        limits_fit_i16(limits@),
    ensures
        final(modulated)@ == spec_recompute_affected(
            modulators@,
            generators@,
            offsets@,
            offsets_enabled,
            values@,
            filter,
            index,
            limits@,
            old(modulated)@,
            modulators@.len() as int,
        ),
{
    let mut dests: Vec<i16> = Vec::new();
    let mut k: usize = 0;
    while k < modulators.len()
        invariant
            k <= modulators@.len(),
            dests@ == destinations_of(modulators@).take(k as int),
        decreases modulators@.len() - k,
    {
        dests.push(modulators[k].2);
        k = k + 1;
        proof {
            assert(dests@ =~= destinations_of(modulators@).take(k as int));
        }
    }
    proof {
        assert(dests@ =~= destinations_of(modulators@));
    }
    let ghost start = modulated@;
    let mut i: usize = 0;
    while i < modulators.len()
        invariant
            i <= modulators@.len(),
            modulators@.len() <= 65535,
            dests@ == destinations_of(modulators@),
            limits_fit_i16(limits@),
            modulated@ == spec_recompute_affected(
                modulators@,
                generators@,
                offsets@,
                offsets_enabled,
                values@,
                filter,
                index,
                limits@,
                start,
                i as int,
            ),
        decreases modulators@.len() - i,
    {
        let ghost before = modulated@;
        let (source, secondary, dest_raw) = modulators[i];
        if modulator_is_affected(source, secondary, filter, index) && dest_raw >= 0
            && (dest_raw as usize) < modulated.len() {
            let dest = dest_raw as usize;
            if dest < limits.len() {
                if let Some((min, max)) = limits[dest] {
                    let base = effective_base(generators, offsets, dest, offsets_enabled) as i32;
                    let out = destination_output(base, dests.as_slice(), values, dest_raw);
                    let v = clamp_to_limit(out, min, max);
                    modulated.set(dest, v);
                }
            }
        }
        proof {
            assert(recomputes_into(modulators@, filter, index, i as int, modulators@[i as int].2 as int)
                == spec_modulator_is_affected(source, secondary, filter, index));
            assert forall|g: int| 0 <= g < start.len() implies
                recomputed_in_prefix(modulators@, filter, index, g, i + 1)
                    == (recomputed_in_prefix(modulators@, filter, index, g, i as int)
                        || recomputes_into(modulators@, filter, index, i as int, g)) by {
                if recomputed_in_prefix(modulators@, filter, index, g, i + 1) {
                    let k = choose|k: int| 0 <= k < i + 1 && #[trigger] recomputes_into(modulators@, filter, index, k, g);
                    if k < i {
                        assert(recomputes_into(modulators@, filter, index, k, g));
                    }
                }
                if recomputed_in_prefix(modulators@, filter, index, g, i as int) {
                    let k = choose|k: int| 0 <= k < i && #[trigger] recomputes_into(modulators@, filter, index, k, g);
                    assert(recomputes_into(modulators@, filter, index, k, g));
                }
            }
            assert(modulated@ =~= spec_recompute_affected(
                modulators@,
                generators@,
                offsets@,
                offsets_enabled,
                values@,
                filter,
                index,
                limits@,
                start,
                i + 1,
            ));
        }
        i = i + 1;
    }
}

} // verus!
