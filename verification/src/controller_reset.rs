//! Controller resets of a channel: the full reset and the Recommended Practice 15
//! reset. The channel's own integer state is reset here; the controllers that must
//! go through a control change are returned, in order, as (controller, 7-bit value).
use vstd::prelude::*;
use crate::controller_tables::{
    default_controller_value, default_controller_value7, default_controller_value_exec,
    is_non_resettable, spec_is_non_resettable,
};
use crate::midi_channel::{channel_wf, ChannelVibrato, MidiChannel};
use crate::midi_controllers as cc;
use crate::midi_system::MIDISystem;
use crate::modulator::Modulator;
use crate::synth_constants::GENERATOR_OVERRIDE_NO_CHANGE_VALUE;

verus! {

/// The controllers a full reset leaves to their own handling: portamento control,
/// data entry and the parameter numbers.
pub open spec fn handled_separately(c: int) -> bool {
    c == cc::PORTAMENTO_CONTROL || c == cc::DATA_ENTRY_MSB || c == cc::REGISTERED_PARAMETER_MSB
        || c == cc::REGISTERED_PARAMETER_LSB || c == cc::NON_REGISTERED_PARAMETER_MSB
        || c == cc::NON_REGISTERED_PARAMETER_LSB
}

/// The control changes for controllers `0..n` that `wanted` selects, in order, each
/// to its 7-bit default.
pub open spec fn reset_requests(n: int, wanted: spec_fn(int) -> bool) -> Seq<(u8, u8)>
    decreases n,
{
    if n <= 0 {
        Seq::empty()
    } else {
        let prev = reset_requests(n - 1, wanted);
        if wanted(n - 1) {
            prev.push(((n - 1) as u8, default_controller_value7(n - 1) as u8))
        } else {
            prev
        }
    }
}

/// A controller that a full reset sends a control change for: not locked, not at
/// its default and not handled separately.
pub open spec fn full_reset_wanted(controllers: Seq<i16>, locked: Seq<bool>) -> spec_fn(int) -> bool {
    |c: int| !locked[c] && controllers[c] != default_controller_value(c) && !handled_separately(c)
}

/// A controller that a Recommended Practice 15 reset sends a control change for:
/// resettable, not at its default and not portamento control.
pub open spec fn rp15_wanted(controllers: Seq<i16>) -> spec_fn(int) -> bool {
    |c: int| !spec_is_non_resettable(c as u8) && controllers[c] != default_controller_value(c)
        && c != cc::PORTAMENTO_CONTROL
}

/// The portamento control value a reset sets: 60 in XG, 0 otherwise.
pub open spec fn portamento_reset_value(system: MIDISystem) -> u8 {
    if system == MIDISystem::Xg { 60 } else { 0 }
}

fn collect_resets(controllers: &Vec<i16>, locked: &Vec<bool>, full: bool, n: usize) -> (r: Vec<(u8, u8)>)
    requires
        controllers@.len() >= n,
        locked@.len() >= n,
        n <= 128,
    ensures
        r@ == reset_requests(
            n as int,
            if full { full_reset_wanted(controllers@, locked@) } else { rp15_wanted(controllers@) },
        ),
{
    let ghost wanted = if full { full_reset_wanted(controllers@, locked@) } else { rp15_wanted(controllers@) };
    let mut out: Vec<(u8, u8)> = Vec::new();
    let mut c: usize = 0;
    while c < n
        invariant
            c <= n,
            n <= 128,
            controllers@.len() >= n,
            locked@.len() >= n,
            wanted == (if full { full_reset_wanted(controllers@, locked@) } else { rp15_wanted(controllers@) }),
            out@ == reset_requests(c as int, wanted),
        decreases n - c,
    {
        let reset_value = default_controller_value_exec(c);
        let ci = c as u8;
        let want = if full {
            !locked[c] && controllers[c] != reset_value && !(ci == cc::PORTAMENTO_CONTROL || ci == cc::DATA_ENTRY_MSB
                || ci == cc::REGISTERED_PARAMETER_MSB || ci == cc::REGISTERED_PARAMETER_LSB
                || ci == cc::NON_REGISTERED_PARAMETER_MSB || ci == cc::NON_REGISTERED_PARAMETER_LSB)
        } else {
            !is_non_resettable(ci) && controllers[c] != reset_value && ci != cc::PORTAMENTO_CONTROL
        };
        proof {
            assert(want == wanted(c as int));
        }
        if want {
            let v7 = (reset_value / 128) as u8;
            proof {
                assert(reset_value == default_controller_value(c as int));
                assert(0 <= default_controller_value7(c as int) <= 127);
                assert(v7 == default_controller_value7(c as int));
            }
            out.push((ci, v7));
        }
        c = c + 1;
    }
    out
}

impl MidiChannel {
    /// The portamento control change a reset asks for (60 in XG, 0 otherwise), or
    /// none while portamento control is locked.
    pub fn reset_portamento(&self, system: MIDISystem) -> (r: Option<(u8, u8)>)
        requires
            channel_wf(*self),
        ensures
            r == if self.locked_controllers@[cc::PORTAMENTO_CONTROL as int] {
                None
            } else {
                Some((cc::PORTAMENTO_CONTROL, portamento_reset_value(system)))
            },
    {
        if self.locked_controllers[cc::PORTAMENTO_CONTROL as usize] {
            return None;
        }
        let value: u8 = match system {
            MIDISystem::Xg => 60,
            _ => 0,
        };
        Some((cc::PORTAMENTO_CONTROL, value))
    }

    /// The full controller reset. The octave tuning is cleared; every unlocked
    /// controller below 127 that is not at its default (apart from portamento
    /// control, data entry and the parameter numbers) is returned as a control change
    /// to its default, followed by the portamento reset; the vibrato, random pan,
    /// per-note pitch and system exclusive modulators are cleared; poly mode comes
    /// back unless mono or poly mode is locked; and the parameters are reset. The
    /// pitch wheel, the custom controllers (but the fine transposition) and the drum
    /// parameters are reset by the host.
    pub fn reset_controllers(&mut self, system: MIDISystem) -> (r: Vec<(u8, u8)>)
        requires
            channel_wf(*old(self)),
        ensures
            !final(self).generator_overrides_enabled,
            !final(self).generator_offsets_enabled,
            channel_wf(*final(self)),
            r@ == reset_requests(127, full_reset_wanted(old(self).midi_controllers@, old(self).locked_controllers@))
                + if old(self).locked_controllers@[cc::PORTAMENTO_CONTROL as int] {
                    Seq::<(u8, u8)>::empty()
                } else {
                    seq![(cc::PORTAMENTO_CONTROL, portamento_reset_value(system))]
                },
            final(self).channel_octave_tuning@ == Seq::new(128, |i: int| 0i8),
            final(self).channel_vibrato == (ChannelVibrato { depth_half_cents: 0, rate_eighth_hz: 0, delay_960ths: 0 }),
            !final(self).random_pan,
            !final(self).per_note_pitch,
            final(self).poly_mode == (old(self).poly_mode || (!old(self).locked_controllers@[cc::MONO_MODE_ON as int]
                && !old(self).locked_controllers@[cc::POLY_MODE_ON as int])),
            final(self).sys_ex_modulators@ == Seq::<(Modulator, Seq<char>)>::empty(),
            final(self).data_entry_state == crate::custom_controllers::DATA_ENTRY_IDLE,
            final(self).midi_controllers@ == old(self).midi_controllers@
                .update(cc::NON_REGISTERED_PARAMETER_LSB as int, 16256i16)
                .update(cc::NON_REGISTERED_PARAMETER_MSB as int, 16256i16)
                .update(cc::REGISTERED_PARAMETER_LSB as int, 16256i16)
                .update(cc::REGISTERED_PARAMETER_MSB as int, 16256i16),
            final(self).generator_overrides@ == Seq::new(
                old(self).generator_overrides@.len(),
                |i: int| GENERATOR_OVERRIDE_NO_CHANGE_VALUE,
            ),
            final(self).generator_offsets@ == Seq::new(old(self).generator_offsets@.len(), |i: int| 0i16),
            *final(self) == (MidiChannel {
                channel_octave_tuning: final(self).channel_octave_tuning,
                channel_vibrato: final(self).channel_vibrato,
                random_pan: final(self).random_pan,
                per_note_pitch: final(self).per_note_pitch,
                poly_mode: final(self).poly_mode,
                sys_ex_modulators: final(self).sys_ex_modulators,
                data_entry_state: final(self).data_entry_state,
                midi_controllers: final(self).midi_controllers,
                generator_overrides: final(self).generator_overrides,
                generator_overrides_enabled: final(self).generator_overrides_enabled,
                generator_offsets: final(self).generator_offsets,
                generator_offsets_enabled: final(self).generator_offsets_enabled,
                ..*old(self)
            }),
    {
        let mut tuning: Vec<i8> = Vec::new();
        let mut k: usize = 0;
        while k < 128
            invariant
                k <= 128,
                tuning@ == Seq::new(k as nat, |i: int| 0i8),
            decreases 128 - k,
        {
            tuning.push(0);
            k = k + 1;
            proof {
                assert(tuning@ =~= Seq::new(k as nat, |i: int| 0i8));
            }
        }
        self.channel_octave_tuning = tuning;
        let mut requests = collect_resets(&self.midi_controllers, &self.locked_controllers, true, 127);
        let ghost resets = requests@;
        if let Some(p) = self.reset_portamento(system) {
            requests.push(p);
        }
        proof {
            assert(requests@ =~= resets + if old(self).locked_controllers@[cc::PORTAMENTO_CONTROL as int] {
                Seq::<(u8, u8)>::empty()
            } else {
                seq![(cc::PORTAMENTO_CONTROL, portamento_reset_value(system))]
            });
        }
        // The parameter reset touches none of the fields below, so it can come first.
        self.reset_parameters();
        self.channel_vibrato = ChannelVibrato { depth_half_cents: 0, rate_eighth_hz: 0, delay_960ths: 0 };
        self.random_pan = false;
        if !self.locked_controllers[cc::MONO_MODE_ON as usize] && !self.locked_controllers[cc::POLY_MODE_ON as usize] {
            self.poly_mode = true;
        }
        self.per_note_pitch = false;
        self.sys_ex_modulators.reset_modulators();
        requests
    }

    /// The Recommended Practice 15 controller reset. The octave tuning, per-note
    /// pitch and vibrato are cleared; every controller that RP-15 resets and that is
    /// not at its default (apart from portamento control) is returned as a control
    /// change to its default; generator overrides and offsets are cleared. The pitch
    /// wheel is reset by the host.
    pub fn reset_controllers_rp15(&mut self) -> (r: Vec<(u8, u8)>)
        requires
            channel_wf(*old(self)),
        ensures
            channel_wf(*final(self)),
            r@ == reset_requests(128, rp15_wanted(old(self).midi_controllers@)),
            final(self).channel_octave_tuning@ == Seq::new(128, |i: int| 0i8),
            final(self).channel_vibrato == (ChannelVibrato { depth_half_cents: 0, rate_eighth_hz: 0, delay_960ths: 0 }),
            !final(self).per_note_pitch,
            final(self).midi_controllers@ == old(self).midi_controllers@,
            !final(self).generator_overrides_enabled,
            !final(self).generator_offsets_enabled,
            final(self).generator_overrides@ == Seq::new(
                old(self).generator_overrides@.len(),
                |i: int| GENERATOR_OVERRIDE_NO_CHANGE_VALUE,
            ),
            final(self).generator_offsets@ == Seq::new(old(self).generator_offsets@.len(), |i: int| 0i16),
            *final(self) == (MidiChannel {
                channel_octave_tuning: final(self).channel_octave_tuning,
                channel_vibrato: final(self).channel_vibrato,
                per_note_pitch: false,
                generator_overrides: final(self).generator_overrides,
                generator_overrides_enabled: false,
                generator_offsets: final(self).generator_offsets,
                generator_offsets_enabled: false,
                ..*old(self)
            }),
    {
        let mut tuning: Vec<i8> = Vec::new();
        let mut k: usize = 0;
        while k < 128
            invariant
                k <= 128,
                tuning@ == Seq::new(k as nat, |i: int| 0i8),
            decreases 128 - k,
        {
            tuning.push(0);
            k = k + 1;
            proof {
                assert(tuning@ =~= Seq::new(k as nat, |i: int| 0i8));
            }
        }
        let requests = collect_resets(&self.midi_controllers, &self.locked_controllers, false, 128);
        self.reset_generator_overrides();
        self.reset_generator_offsets();
        self.channel_octave_tuning = tuning;
        self.per_note_pitch = false;
        self.channel_vibrato = ChannelVibrato { depth_half_cents: 0, rate_eighth_hz: 0, delay_960ths: 0 };
        requests
    }
}

/// The controllers that a Recommended Practice 15 reset leaves alone: bank select
/// (0, 32), volume (7, 39), pan (10, 42), sound controllers 1-10 (70-79), the effect
/// depths (91-95), the parameter numbers (98-101) and the mode messages (124-127).
pub open spec fn rp15_leaves_alone(c: int) -> bool {
    ||| c == 0 || c == 32 || c == 7 || c == 39 || c == 10 || c == 42
    ||| 70 <= c <= 79
    ||| 91 <= c <= 95
    ||| 98 <= c <= 101
    ||| 124 <= c <= 127
}

proof fn lemma_reset_requests_members(n: int, wanted: spec_fn(int) -> bool)
    requires
        0 <= n <= 256,
    ensures
        forall|k: int| 0 <= k < reset_requests(n, wanted).len() ==> {
            &&& 0 <= (#[trigger] reset_requests(n, wanted)[k]).0 < n
            &&& wanted(reset_requests(n, wanted)[k].0 as int)
        },
        forall|c: int| 0 <= c < n && #[trigger] wanted(c) ==> exists|k: int|
            0 <= k < reset_requests(n, wanted).len() && reset_requests(n, wanted)[k].0 == c,
    decreases n,
{
    if n > 0 {
        lemma_reset_requests_members(n - 1, wanted);
        let prev = reset_requests(n - 1, wanted);
        if wanted(n - 1) {
            let cur = reset_requests(n, wanted);
            assert(cur == prev.push(((n - 1) as u8, default_controller_value7(n - 1) as u8)));
            assert forall|c: int| 0 <= c < n && #[trigger] wanted(c) implies exists|k: int|
                0 <= k < cur.len() && cur[k].0 == c by {
                if c == n - 1 {
                    assert(cur[prev.len() as int].0 == c);
                } else {
                    let k = choose|k: int| 0 <= k < prev.len() && prev[k].0 == c;
                    assert(cur[k] == prev[k]);
                }
            }
        } else {
            assert(reset_requests(n, wanted) == prev);
        }
    }
}

/// A Recommended Practice 15 reset asks for a control change of exactly the
/// controllers below 128 that it may reset (see [`rp15_leaves_alone`]; portamento
/// control, 84, is reset separately) and that are not at their default value: it
/// never touches bank select, volume, pan, the sound controllers, the effect depths,
/// the parameter numbers or the mode messages. The controller set is also exactly
/// the one [`spec_is_non_resettable`] names.
pub proof fn lemma_rp15_leaves_non_resettable(controllers: Seq<i16>)
    requires
        controllers.len() >= 128,
    ensures
        forall|c: u8| #[trigger] spec_is_non_resettable(c) <==> rp15_leaves_alone(c as int),
        forall|k: int| 0 <= k < reset_requests(128, rp15_wanted(controllers)).len() ==> {
            let c = (#[trigger] reset_requests(128, rp15_wanted(controllers))[k]).0 as int;
            &&& c < 128
            &&& !rp15_leaves_alone(c)
            &&& c != 84
            &&& controllers[c] != default_controller_value(c)
        },
        forall|c: int| 0 <= c < 128 && !rp15_leaves_alone(c) && c != 84 && controllers[c] != default_controller_value(c)
            ==> exists|k: int| 0 <= k < reset_requests(128, rp15_wanted(controllers)).len()
                && #[trigger] reset_requests(128, rp15_wanted(controllers))[k].0 == c,
{
    let w = rp15_wanted(controllers);
    lemma_reset_requests_members(128, w);
    assert forall|c: u8| #[trigger] spec_is_non_resettable(c) <==> rp15_leaves_alone(c as int) by {}
    assert forall|c: int| 0 <= c < 128 && !rp15_leaves_alone(c) && c != 84 && controllers[c] != default_controller_value(c)
        implies exists|k: int| 0 <= k < reset_requests(128, w).len() && #[trigger] reset_requests(128, w)[k].0 == c by {
        assert(!spec_is_non_resettable(c as u8));
        assert(w(c));
    }
}

} // verus!
