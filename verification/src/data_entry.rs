//! Data entry (controllers 6 and 38) on a channel: registered parameters (pitch
//! wheel range, tuning, modulation depth, reset) and non-registered ones (GS part
//! parameters, SoundFont2 generator offsets, AWE32). The channel's own integer state
//! is changed here; what needs the rest of the engine is returned as an action.
use vstd::prelude::*;
use crate::awe32::{awe32_action, spec_awe32_action, AweAction};
use crate::controller_tables::NON_CC_INDEX_OFFSET;
use crate::custom_controllers::{DATA_ENTRY_IDLE, DATA_ENTRY_NRP_FINE, DATA_ENTRY_RP_COARSE, DATA_ENTRY_RP_FINE};
use crate::midi_channel::{add_default_vibrato, channel_wf, spec_default_vibrato, vibrato_is_off, ChannelVibrato, MidiChannel};
use crate::midi_controllers as cc;
use crate::modulator_sources::PITCH_WHEEL_RANGE;
use crate::generator_types::GENERATORS_AMOUNT;
use crate::synth_constants::GENERATOR_OVERRIDE_NO_CHANGE_VALUE;

verus! {

/// Registered parameter numbers.
pub const RPN_PITCH_WHEEL_RANGE: u16 = 0x0000;
pub const RPN_FINE_TUNING: u16 = 0x0001;
pub const RPN_COARSE_TUNING: u16 = 0x0002;
pub const RPN_MODULATION_DEPTH: u16 = 0x0005;
pub const RPN_RESET_PARAMETERS: u16 = 0x3fff;

/// Non-registered parameter MSBs.
pub const NRPN_MSB_PART_PARAMETER: u8 = 0x01;
pub const NRPN_MSB_AWE32: u8 = 0x7f;
pub const NRPN_MSB_SF2: u8 = 120;

/// Non-registered parameter LSBs of GS part parameters.
pub const NRPN_LSB_VIBRATO_RATE: u8 = 0x08;
pub const NRPN_LSB_VIBRATO_DEPTH: u8 = 0x09;
pub const NRPN_LSB_VIBRATO_DELAY: u8 = 0x0a;
pub const NRPN_LSB_TVF_FILTER_CUTOFF: u8 = 0x20;
pub const NRPN_LSB_TVF_FILTER_RESONANCE: u8 = 0x21;
pub const NRPN_LSB_EG_ATTACK_TIME: u8 = 0x63;
pub const NRPN_LSB_EG_DECAY_TIME: u8 = 0x64;
pub const NRPN_LSB_EG_RELEASE_TIME: u8 = 0x66;

/// What a data entry asks of the rest of the engine.
#[derive(Clone, Copy, Debug, PartialEq, Eq, Structural)]
pub enum DataEntryAction {
    NoChange,
    /// A control change the channel processes.
    ControllerChange { controller: u8, value: u8 },
    /// Sets a SoundFont2 generator offset.
    GeneratorOffset { generator: u16, offset: i16 },
    /// Coarse tuning, in semitones.
    CoarseTuning { semitones: i32 },
    /// Fine tuning from the data MSB: the tuning in cents, not yet combined with the LSB.
    FineTuning { cents: i32 },
    /// The fine tuning LSB, combined with the stored coarse value by the host.
    FineTuningLsb { data_lsb: u8 },
    /// Modulation depth, in cents.
    ModulationDepth { cents: i32 },
    /// The modulation depth LSB (1/128 of 100 cents per step), added by the host.
    ModulationDepthLsb { data_lsb: u8 },
    /// An AWE32 generator change.
    Awe32(AweAction),
    /// A registered parameter this engine does not know (it is logged).
    UnrecognizedRpn { rpn: u16, value: u8 },
    /// A non-registered parameter this engine does not know (logged when the value
    /// is not 64).
    UnrecognizedNrpn { msb: u8, lsb: u8, value: u8 },
}

/// The 7-bit value a 14-bit controller entry holds.
pub open spec fn seven_bit(v: i16) -> u8 {
    (v >> 7u16) as u8
}

/// The registered parameter number selected by the channel's controllers.
pub open spec fn spec_rpn(controllers: Seq<i16>) -> u16 {
    (controllers[cc::REGISTERED_PARAMETER_MSB as int] as u16)
        | ((controllers[cc::REGISTERED_PARAMETER_LSB as int] >> 7u16) as u16)
}

/// The vibrato after a GS NRPN vibrato change: starting from the default when the
/// vibrato is off, the rate becomes `v / 8` Hz, the depth `v / 2` cents or the delay
/// `v / 192` s. A value of 64 changes nothing.
pub open spec fn spec_vibrato_after(v: ChannelVibrato, nrpn_lsb: u8, data_value: u8) -> ChannelVibrato {
    let base = if vibrato_is_off(v) { spec_default_vibrato() } else { v };
    if data_value == 64 {
        v
    } else if nrpn_lsb == NRPN_LSB_VIBRATO_RATE {
        ChannelVibrato { rate_eighth_hz: data_value as u16, ..base }
    } else if nrpn_lsb == NRPN_LSB_VIBRATO_DEPTH {
        ChannelVibrato { depth_half_cents: data_value as u16, ..base }
    } else if nrpn_lsb == NRPN_LSB_VIBRATO_DELAY {
        ChannelVibrato { delay_960ths: (5 * data_value) as u16, ..base }
    } else {
        v
    }
}

/// The controller a GS NRPN part parameter drives, if any.
pub open spec fn spec_part_parameter_controller(nrpn_lsb: u8) -> Option<u8> {
    if nrpn_lsb == NRPN_LSB_TVF_FILTER_CUTOFF { Some(cc::BRIGHTNESS) }
    else if nrpn_lsb == NRPN_LSB_TVF_FILTER_RESONANCE { Some(cc::FILTER_RESONANCE) }
    else if nrpn_lsb == NRPN_LSB_EG_ATTACK_TIME { Some(cc::ATTACK_TIME) }
    else if nrpn_lsb == NRPN_LSB_EG_DECAY_TIME { Some(cc::DECAY_TIME) }
    else if nrpn_lsb == NRPN_LSB_EG_RELEASE_TIME { Some(cc::RELEASE_TIME) }
    else { None }
}

/// What a GS NRPN part parameter asks of the engine: vibrato changes stay in the
/// channel; the filter and envelope parameters are control changes.
pub open spec fn spec_part_parameter_action(nrpn_lsb: u8, data_value: u8) -> DataEntryAction {
    if nrpn_lsb == NRPN_LSB_VIBRATO_RATE || nrpn_lsb == NRPN_LSB_VIBRATO_DEPTH || nrpn_lsb == NRPN_LSB_VIBRATO_DELAY {
        DataEntryAction::NoChange
    } else if spec_part_parameter_controller(nrpn_lsb) is Some {
        DataEntryAction::ControllerChange { controller: spec_part_parameter_controller(nrpn_lsb)->0, value: data_value }
    } else {
        DataEntryAction::UnrecognizedNrpn { msb: NRPN_MSB_PART_PARAMETER, lsb: nrpn_lsb, value: data_value }
    }
}

/// What a registered parameter data entry MSB asks of the engine.
pub open spec fn spec_rpn_coarse_action(rpn: u16, data_value: u8) -> DataEntryAction {
    if rpn == RPN_PITCH_WHEEL_RANGE || rpn == RPN_RESET_PARAMETERS {
        DataEntryAction::NoChange
    } else if rpn == RPN_COARSE_TUNING {
        DataEntryAction::CoarseTuning { semitones: (data_value - 64) as i32 }
    } else if rpn == RPN_FINE_TUNING {
        DataEntryAction::FineTuning { cents: (data_value - 64) as i32 }
    } else if rpn == RPN_MODULATION_DEPTH {
        DataEntryAction::ModulationDepth { cents: (data_value * 100) as i32 }
    } else {
        DataEntryAction::UnrecognizedRpn { rpn, value: data_value }
    }
}

/// The index of the pitch wheel range in the extended controller table.
pub open spec fn pitch_wheel_range_index() -> int {
    NON_CC_INDEX_OFFSET + PITCH_WHEEL_RANGE
}

/// Whether `after` has the parameter state of `before`: the same data entry state
/// and the same generator overrides and offsets (and their flags).
pub open spec fn parameters_kept(after: MidiChannel, before: MidiChannel) -> bool {
    &&& after.data_entry_state == before.data_entry_state
    &&& after.generator_overrides@ == before.generator_overrides@
    &&& after.generator_overrides_enabled == before.generator_overrides_enabled
    &&& after.generator_offsets@ == before.generator_offsets@
    &&& after.generator_offsets_enabled == before.generator_offsets_enabled
}

/// Whether `after` is the result of a parameter reset on a channel whose controller
/// table was `ctl`: data entry idle, the four parameter number controllers at
/// 127 << 7, generator overrides cleared and disabled, offsets zero and disabled.
pub open spec fn parameters_reset(after: MidiChannel, ctl: Seq<i16>) -> bool {
    &&& after.data_entry_state == DATA_ENTRY_IDLE
    &&& after.midi_controllers@ == ctl
        .update(cc::NON_REGISTERED_PARAMETER_LSB as int, 16256i16)
        .update(cc::NON_REGISTERED_PARAMETER_MSB as int, 16256i16)
        .update(cc::REGISTERED_PARAMETER_LSB as int, 16256i16)
        .update(cc::REGISTERED_PARAMETER_MSB as int, 16256i16)
    &&& after.generator_overrides@ == Seq::new(GENERATORS_AMOUNT as nat, |i: int| GENERATOR_OVERRIDE_NO_CHANGE_VALUE)
    &&& !after.generator_overrides_enabled
    &&& after.generator_offsets@ == Seq::new(GENERATORS_AMOUNT as nat, |i: int| 0i16)
    &&& !after.generator_offsets_enabled
}

/// Whether `after` differs from `before` at most in what data entry edits: the
/// controller table, the vibrato, the data entry state and the generator overrides
/// and offsets.
pub open spec fn data_entry_frame(after: MidiChannel, before: MidiChannel) -> bool {
    after == (MidiChannel {
        midi_controllers: after.midi_controllers,
        channel_vibrato: after.channel_vibrato,
        data_entry_state: after.data_entry_state,
        generator_overrides: after.generator_overrides,
        generator_overrides_enabled: after.generator_overrides_enabled,
        generator_offsets: after.generator_offsets,
        generator_offsets_enabled: after.generator_offsets_enabled,
        ..before
    })
}

impl MidiChannel {
    /// Handles a GS NRPN part parameter (NRPN MSB 1): vibrato rate, depth and delay
    /// change the channel's vibrato (see [`spec_vibrato_after`]); filter cutoff and
    /// resonance and envelope attack, decay and release become control changes.
    pub fn handle_nrpn_part_parameter(&mut self, nrpn_fine: u8, data_value: u8) -> (r: DataEntryAction)
        requires
            channel_wf(*old(self)),
        ensures
            channel_wf(*final(self)),
            r == spec_part_parameter_action(nrpn_fine, data_value),
            *final(self) == (MidiChannel {
                channel_vibrato: spec_vibrato_after(old(self).channel_vibrato, nrpn_fine, data_value),
                ..*old(self)
            }),
    {
        if nrpn_fine == NRPN_LSB_VIBRATO_RATE || nrpn_fine == NRPN_LSB_VIBRATO_DEPTH
            || nrpn_fine == NRPN_LSB_VIBRATO_DELAY
        {
            if data_value == 64 {
                return DataEntryAction::NoChange;
            }
            add_default_vibrato(self);
            if nrpn_fine == NRPN_LSB_VIBRATO_RATE {
                self.channel_vibrato.rate_eighth_hz = data_value as u16;
            } else if nrpn_fine == NRPN_LSB_VIBRATO_DEPTH {
                self.channel_vibrato.depth_half_cents = data_value as u16;
            } else {
                self.channel_vibrato.delay_960ths = 5 * data_value as u16;
            }
            return DataEntryAction::NoChange;
        }
        let controller: Option<u8> = if nrpn_fine == NRPN_LSB_TVF_FILTER_CUTOFF {
            Some(cc::BRIGHTNESS)
        } else if nrpn_fine == NRPN_LSB_TVF_FILTER_RESONANCE {
            Some(cc::FILTER_RESONANCE)
        } else if nrpn_fine == NRPN_LSB_EG_ATTACK_TIME {
            Some(cc::ATTACK_TIME)
        } else if nrpn_fine == NRPN_LSB_EG_DECAY_TIME {
            Some(cc::DECAY_TIME)
        } else if nrpn_fine == NRPN_LSB_EG_RELEASE_TIME {
            Some(cc::RELEASE_TIME)
        } else {
            None
        };
        match controller {
            Some(c) => DataEntryAction::ControllerChange { controller: c, value: data_value },
            None => DataEntryAction::UnrecognizedNrpn { msb: NRPN_MSB_PART_PARAMETER, lsb: nrpn_fine, value: data_value },
        }
    }

    /// The registered parameter number the channel's controllers select.
    fn rpn_value(&self) -> (r: u16)
        requires
            channel_wf(*self),
        ensures
            r == spec_rpn(self.midi_controllers@),
    {
        (self.midi_controllers[cc::REGISTERED_PARAMETER_MSB as usize] as u16)
            | ((self.midi_controllers[cc::REGISTERED_PARAMETER_LSB as usize] >> 7u16) as u16)
    }

    /// Handles a registered parameter data entry MSB: the pitch wheel range is
    /// stored (as a 14-bit value) in the controller table and a reset resets the
    /// parameters; tunings and modulation depth are returned.
    fn handle_rpn_coarse(&mut self, rpn: u16, data_value: u8) -> (r: DataEntryAction)
        requires
            channel_wf(*old(self)),
        ensures
            channel_wf(*final(self)),
            r == spec_rpn_coarse_action(rpn, data_value),
            data_entry_frame(*final(self), *old(self)),
            rpn == RPN_PITCH_WHEEL_RANGE ==> final(self).midi_controllers@ == old(self).midi_controllers@.update(
                pitch_wheel_range_index(),
                (data_value * 128) as i16,
            ) && final(self).data_entry_state == old(self).data_entry_state,
            rpn == RPN_RESET_PARAMETERS ==> parameters_reset(*final(self), old(self).midi_controllers@),
            rpn != RPN_RESET_PARAMETERS ==> parameters_kept(*final(self), *old(self)),
            rpn != RPN_PITCH_WHEEL_RANGE && rpn != RPN_RESET_PARAMETERS ==> final(self).midi_controllers@
                == old(self).midi_controllers@ && final(self).data_entry_state == old(self).data_entry_state,
            final(self).channel_vibrato == old(self).channel_vibrato,
            final(self).lock_gs_nrpn_params == old(self).lock_gs_nrpn_params,
    {
        if rpn == RPN_PITCH_WHEEL_RANGE {
            self.midi_controllers.set(NON_CC_INDEX_OFFSET + PITCH_WHEEL_RANGE as usize, data_value as i16 * 128);
            DataEntryAction::NoChange
        } else if rpn == RPN_COARSE_TUNING {
            DataEntryAction::CoarseTuning { semitones: data_value as i32 - 64 }
        } else if rpn == RPN_FINE_TUNING {
            DataEntryAction::FineTuning { cents: data_value as i32 - 64 }
        } else if rpn == RPN_MODULATION_DEPTH {
            DataEntryAction::ModulationDepth { cents: data_value as i32 * 100 }
        } else if rpn == RPN_RESET_PARAMETERS {
            self.reset_parameters();
            DataEntryAction::NoChange
        } else {
            DataEntryAction::UnrecognizedRpn { rpn, value: data_value }
        }
    }

    /// Handles a data entry MSB (controller 6). The value is stored (as a 14-bit
    /// value) in the controller table. Then, by the data entry state: idle does
    /// nothing; after an NRPN, part parameters are handled (unless GS NRPN
    /// parameters are locked), SoundFont2 NRPNs (LSB up to 100) set the offset of the
    /// generator `sf2_generator` to the 14-bit data value minus 8192, AWE32 waits
    /// for the LSB, and other NRPNs are reported; every other state edits the
    /// registered parameter the controllers select.
    pub fn data_entry_coarse(&mut self, data_value: u8, sf2_generator: u16) -> (r: DataEntryAction)
        requires
            channel_wf(*old(self)),
        ensures
            channel_wf(*final(self)),
            data_entry_frame(*final(self), *old(self)),
            ({
                let ctl = old(self).midi_controllers@.update(cc::DATA_ENTRY_MSB as int, (data_value * 128) as i16);
                let state = old(self).data_entry_state;
                let nrpn_msb = seven_bit(ctl[cc::NON_REGISTERED_PARAMETER_MSB as int]);
                let nrpn_lsb = seven_bit(ctl[cc::NON_REGISTERED_PARAMETER_LSB as int]);
                let data_lsb = seven_bit(ctl[cc::DATA_ENTRY_LSB as int]);
                if state == DATA_ENTRY_IDLE || (state == DATA_ENTRY_NRP_FINE && (old(self).lock_gs_nrpn_params
                    || nrpn_msb != NRPN_MSB_PART_PARAMETER)) {
                    &&& final(self).midi_controllers@ == ctl
                    &&& final(self).channel_vibrato == old(self).channel_vibrato
                    &&& parameters_kept(*final(self), *old(self))
                    &&& r == if state == DATA_ENTRY_IDLE || old(self).lock_gs_nrpn_params || nrpn_msb == NRPN_MSB_AWE32 {
                        DataEntryAction::NoChange
                    } else if nrpn_msb == NRPN_MSB_SF2 {
                        if nrpn_lsb <= 100 {
                            DataEntryAction::GeneratorOffset {
                                generator: sf2_generator,
                                offset: (data_value * 128 + data_lsb - 8192) as i16,
                            }
                        } else {
                            DataEntryAction::NoChange
                        }
                    } else {
                        DataEntryAction::UnrecognizedNrpn { msb: nrpn_msb, lsb: nrpn_lsb, value: data_value }
                    }
                } else if state == DATA_ENTRY_NRP_FINE {
                    &&& final(self).midi_controllers@ == ctl
                    &&& final(self).channel_vibrato == spec_vibrato_after(old(self).channel_vibrato, nrpn_lsb, data_value)
                    &&& parameters_kept(*final(self), *old(self))
                    &&& r == spec_part_parameter_action(nrpn_lsb, data_value)
                } else {
                    let rpn = spec_rpn(ctl);
                    &&& r == spec_rpn_coarse_action(rpn, data_value)
                    &&& final(self).channel_vibrato == old(self).channel_vibrato
                    &&& rpn == RPN_PITCH_WHEEL_RANGE ==> final(self).midi_controllers@ == ctl.update(
                        pitch_wheel_range_index(),
                        (data_value * 128) as i16,
                    )
                    &&& rpn == RPN_RESET_PARAMETERS ==> parameters_reset(*final(self), ctl)
                    &&& rpn != RPN_RESET_PARAMETERS ==> parameters_kept(*final(self), *old(self))
                    &&& rpn != RPN_PITCH_WHEEL_RANGE && rpn != RPN_RESET_PARAMETERS ==> final(self).midi_controllers@
                        == ctl
                }
            }),
    {
        self.midi_controllers.set(cc::DATA_ENTRY_MSB as usize, data_value as i16 * 128);
        let state = self.data_entry_state;
        if state == DATA_ENTRY_IDLE {
            return DataEntryAction::NoChange;
        }
        if state == DATA_ENTRY_NRP_FINE {
            if self.lock_gs_nrpn_params {
                return DataEntryAction::NoChange;
            }
            let nrpn_msb = #[verifier::truncate] ((self.midi_controllers[cc::NON_REGISTERED_PARAMETER_MSB as usize] >> 7u16) as u8);
            let nrpn_lsb = #[verifier::truncate] ((self.midi_controllers[cc::NON_REGISTERED_PARAMETER_LSB as usize] >> 7u16) as u8);
            let data_lsb = #[verifier::truncate] ((self.midi_controllers[cc::DATA_ENTRY_LSB as usize] >> 7u16) as u8);
            if nrpn_msb == NRPN_MSB_PART_PARAMETER {
                return self.handle_nrpn_part_parameter(nrpn_lsb, data_value);
            } else if nrpn_msb == NRPN_MSB_AWE32 {
                return DataEntryAction::NoChange;
            } else if nrpn_msb == NRPN_MSB_SF2 {
                if nrpn_lsb <= 100 {
                    let offset: i32 = data_value as i32 * 128 + data_lsb as i32 - 8192;
                    return DataEntryAction::GeneratorOffset { generator: sf2_generator, offset: offset as i16 };
                }
                return DataEntryAction::NoChange;
            } else {
                return DataEntryAction::UnrecognizedNrpn { msb: nrpn_msb, lsb: nrpn_lsb, value: data_value };
            }
        }
        let rpn = self.rpn_value();
        self.handle_rpn_coarse(rpn, data_value)
    }

    /// Handles a data entry LSB (controller 38). The value is stored (as a 14-bit
    /// value) in the controller table. After a registered parameter: a non-zero LSB
    /// is merged into the stored pitch wheel range, the fine tuning and modulation
    /// depth LSBs are returned, and a reset resets the parameters. After an NRPN:
    /// AWE32 parameters become generator changes (with the data MSB), SoundFont2
    /// NRPNs do nothing and others are reported. Other states do nothing.
    pub fn data_entry_fine(&mut self, data_value: u8) -> (r: DataEntryAction)
        requires
            channel_wf(*old(self)),
        ensures
            channel_wf(*final(self)),
            data_entry_frame(*final(self), *old(self)),
            final(self).channel_vibrato == old(self).channel_vibrato,
            ({
                let ctl = old(self).midi_controllers@.update(cc::DATA_ENTRY_LSB as int, (data_value * 128) as i16);
                let state = old(self).data_entry_state;
                if state == DATA_ENTRY_RP_COARSE || state == DATA_ENTRY_RP_FINE {
                    let rpn = spec_rpn(ctl);
                    &&& rpn == RPN_PITCH_WHEEL_RANGE ==> {
                        &&& r == DataEntryAction::NoChange
                        &&& final(self).midi_controllers@ == if data_value != 0 {
                            ctl.update(
                                pitch_wheel_range_index(),
                                (ctl[pitch_wheel_range_index()] | data_value as i16) as i16,
                            )
                        } else {
                            ctl
                        }
                    }
                    &&& rpn == RPN_FINE_TUNING ==> r == DataEntryAction::FineTuningLsb { data_lsb: data_value }
                        && final(self).midi_controllers@ == ctl
                    &&& rpn == RPN_MODULATION_DEPTH ==> r == DataEntryAction::ModulationDepthLsb { data_lsb: data_value }
                        && final(self).midi_controllers@ == ctl
                    &&& rpn == RPN_RESET_PARAMETERS ==> r == DataEntryAction::NoChange
                        && parameters_reset(*final(self), ctl)
                    &&& rpn != RPN_RESET_PARAMETERS ==> parameters_kept(*final(self), *old(self))
                    &&& rpn != RPN_PITCH_WHEEL_RANGE && rpn != RPN_FINE_TUNING && rpn != RPN_MODULATION_DEPTH
                        && rpn != RPN_RESET_PARAMETERS ==> r == DataEntryAction::NoChange && final(self).midi_controllers@ == ctl
                } else if state == DATA_ENTRY_NRP_FINE {
                    let nrpn_msb = seven_bit(ctl[cc::NON_REGISTERED_PARAMETER_MSB as int]);
                    let nrpn_lsb = seven_bit(ctl[cc::NON_REGISTERED_PARAMETER_LSB as int]);
                    &&& final(self).midi_controllers@ == ctl
                    &&& parameters_kept(*final(self), *old(self))
                    &&& r == if nrpn_msb == NRPN_MSB_SF2 {
                        DataEntryAction::NoChange
                    } else if nrpn_msb == NRPN_MSB_AWE32 {
                        DataEntryAction::Awe32(spec_awe32_action(
                            nrpn_lsb as usize,
                            data_value,
                            seven_bit(ctl[cc::DATA_ENTRY_MSB as int]),
                        ))
                    } else {
                        DataEntryAction::UnrecognizedNrpn { msb: nrpn_msb, lsb: nrpn_lsb, value: data_value }
                    }
                } else {
                    &&& final(self).midi_controllers@ == ctl
                    &&& parameters_kept(*final(self), *old(self))
                    &&& r == DataEntryAction::NoChange
                }
            }),
    {
        self.midi_controllers.set(cc::DATA_ENTRY_LSB as usize, data_value as i16 * 128);
        let state = self.data_entry_state;
        if state == DATA_ENTRY_RP_COARSE || state == DATA_ENTRY_RP_FINE {
            let rpn = self.rpn_value();
            if rpn == RPN_PITCH_WHEEL_RANGE {
                if data_value != 0 {
                    let idx = NON_CC_INDEX_OFFSET + PITCH_WHEEL_RANGE as usize;
                    let merged = self.midi_controllers[idx] | data_value as i16;
                    self.midi_controllers.set(idx, merged);
                }
                DataEntryAction::NoChange
            } else if rpn == RPN_FINE_TUNING {
                DataEntryAction::FineTuningLsb { data_lsb: data_value }
            } else if rpn == RPN_MODULATION_DEPTH {
                DataEntryAction::ModulationDepthLsb { data_lsb: data_value }
            } else if rpn == RPN_RESET_PARAMETERS {
                self.reset_parameters();
                DataEntryAction::NoChange
            } else {
                DataEntryAction::NoChange
            }
        } else if state == DATA_ENTRY_NRP_FINE {
            let nrpn_msb = #[verifier::truncate] ((self.midi_controllers[cc::NON_REGISTERED_PARAMETER_MSB as usize] >> 7u16) as u8);
            let nrpn_lsb = #[verifier::truncate] ((self.midi_controllers[cc::NON_REGISTERED_PARAMETER_LSB as usize] >> 7u16) as u8);
            if nrpn_msb == NRPN_MSB_SF2 {
                DataEntryAction::NoChange
            } else if nrpn_msb == NRPN_MSB_AWE32 {
                let data_msb = #[verifier::truncate] ((self.midi_controllers[cc::DATA_ENTRY_MSB as usize] >> 7u16) as u8);
                DataEntryAction::Awe32(awe32_action(nrpn_lsb as usize, data_value, data_msb))
            } else {
                DataEntryAction::UnrecognizedNrpn { msb: nrpn_msb, lsb: nrpn_lsb, value: data_value }
            }
        } else {
            DataEntryAction::NoChange
        }
    }
}

/// The GS NRPN part parameters (NRPN MSB 01): LSB 20 filter cutoff, 21 resonance,
/// 63 attack time, 64 decay time and 66 release time are control changes of
/// controllers 74, 71, 73, 75 and 72 with the data value, leaving the vibrato alone;
/// LSB 08, 09 and 0A set the vibrato rate (1/8 Hz), depth (1/2 cent) and delay (5
/// units of 1/960 s per step), starting from the default vibrato (50 cents, 8 Hz,
/// 0.6 s) when it is off, and report nothing; a data value of 64 leaves the vibrato
/// as it was; any other LSB is reported as unrecognized.
pub proof fn lemma_gs_nrpn_part_parameter_map(v: ChannelVibrato, nrpn_lsb: u8, data_value: u8)
    ensures
        ({
            let action = spec_part_parameter_action(nrpn_lsb, data_value);
            let after = spec_vibrato_after(v, nrpn_lsb, data_value);
            let off = v.depth_half_cents == 0 && v.rate_eighth_hz == 0 && v.delay_960ths == 0;
            let base = if off {
                ChannelVibrato { depth_half_cents: 100, rate_eighth_hz: 64, delay_960ths: 576 }
            } else {
                v
            };
            &&& nrpn_lsb == 0x20 ==> action == (DataEntryAction::ControllerChange { controller: 74, value: data_value }) && after == v
            &&& nrpn_lsb == 0x21 ==> action == (DataEntryAction::ControllerChange { controller: 71, value: data_value }) && after == v
            &&& nrpn_lsb == 0x63 ==> action == (DataEntryAction::ControllerChange { controller: 73, value: data_value }) && after == v
            &&& nrpn_lsb == 0x64 ==> action == (DataEntryAction::ControllerChange { controller: 75, value: data_value }) && after == v
            &&& nrpn_lsb == 0x66 ==> action == (DataEntryAction::ControllerChange { controller: 72, value: data_value }) && after == v
            &&& (nrpn_lsb == 0x08 || nrpn_lsb == 0x09 || nrpn_lsb == 0x0a) ==> action == DataEntryAction::NoChange
            &&& data_value == 64 ==> after == v
            &&& nrpn_lsb == 0x08 && data_value != 64 ==> after == (ChannelVibrato { rate_eighth_hz: data_value as u16, ..base })
            &&& nrpn_lsb == 0x09 && data_value != 64 ==> after == (ChannelVibrato { depth_half_cents: data_value as u16, ..base })
            &&& nrpn_lsb == 0x0a && data_value != 64 ==> after == (ChannelVibrato { delay_960ths: (5 * data_value) as u16, ..base })
            &&& !(nrpn_lsb == 0x08 || nrpn_lsb == 0x09 || nrpn_lsb == 0x0a || nrpn_lsb == 0x20 || nrpn_lsb == 0x21
                || nrpn_lsb == 0x63 || nrpn_lsb == 0x64 || nrpn_lsb == 0x66) ==> {
                &&& action == (DataEntryAction::UnrecognizedNrpn { msb: 1, lsb: nrpn_lsb, value: data_value })
                &&& after == v
            }
        }),
{
}

} // verus!
