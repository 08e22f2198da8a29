//! The insertion effect's parameter cache and the GS effect flags, how GS messages
//! change them, and how an insertion snapshot is restored through GS messages.
use vstd::prelude::*;
use crate::sysex_gs::{
    decode_gs, gs_readable, spec_channel_to_syx, spec_decode_gs, spec_gs_part_channel,
    channel_to_syx, lemma_part_channel_roundtrip, GsChorusParameter, GsCommand, GsEfxSend,
    gs_data, gs_checksum, spec_gs_data,
};
use crate::midi_channel::MidiChannel;

verus! {

/// Number of cached insertion effect parameters (addresses 0x03-0x16).
pub const INSERTION_PARAMETER_COUNT: usize = 20;

/// Length of the insertion cache: the parameters, then the reverb, chorus and delay
/// send levels.
pub const INSERTION_CACHE_SIZE: usize = 23;

/// The value that marks a cached parameter as never set.
pub const PARAMETER_UNSET: u8 = 255;

/// The state of the insertion effect as a snapshot: its type, the cache of
/// parameters (255 for "no change") followed by the three send levels, and which
/// channels feed it.
pub struct InsertionProcessorSnapshot {
    /// The EFX type, MSB << 8 | LSB.
    pub efx_type: u16,
    /// 20 parameters, then the sends to reverb, chorus and delay.
    pub params: Vec<u8>,
    /// For each channel, whether it feeds the insertion effect.
    pub channels: Vec<bool>,
}

/// An insertion snapshot with separate send levels.
pub struct InsertionSnapshot {
    /// The EFX type, MSB << 8 | LSB.
    pub efx_type: u16,
    /// The 20 parameters (255 for "no change").
    pub params: Vec<u8>,
    /// Send levels, 0-127.
    pub send_level_to_reverb: u8,
    pub send_level_to_chorus: u8,
    pub send_level_to_delay: u8,
}

impl InsertionSnapshot {
    /// The snapshot of a fresh synthesizer: Thru (type 0), no parameter set, reverb
    /// send 40 and no chorus or delay send.
    pub fn new() -> (r: Self)
        ensures
            r.efx_type == 0,
            r.params@ == Seq::new(20, |i: int| 255u8),
            r.send_level_to_reverb == 40,
            r.send_level_to_chorus == 0,
            r.send_level_to_delay == 0,
    {
        let mut params: Vec<u8> = Vec::new();
        let mut i: usize = 0;
        while i < INSERTION_PARAMETER_COUNT
            invariant
                i <= INSERTION_PARAMETER_COUNT,
                params@ == Seq::new(i as nat, |j: int| 255u8),
            decreases INSERTION_PARAMETER_COUNT - i,
        {
            params.push(PARAMETER_UNSET);
            i = i + 1;
            proof {
                assert(params@ =~= Seq::new(i as nat, |j: int| 255u8));
            }
        }
        InsertionSnapshot {
            efx_type: 0,
            params,
            send_level_to_reverb: 40,
            send_level_to_chorus: 0,
            send_level_to_delay: 0,
        }
    }
}

/// The default insertion cache: no parameter set, reverb send 40, chorus and delay
/// sends 0.
pub open spec fn spec_default_insertion_params() -> Seq<u8> {
    Seq::new(23, |i: int| if i < 20 { 255u8 } else if i == 20 { 40u8 } else { 0u8 })
}

/// The default insertion cache (see [`spec_default_insertion_params`]).
pub fn reset_insertion_params() -> (r: Vec<u8>)
    ensures
        r@ == spec_default_insertion_params(),
{
    let mut params: Vec<u8> = Vec::new();
    let mut i: usize = 0;
    while i < INSERTION_CACHE_SIZE
        invariant
            i <= INSERTION_CACHE_SIZE,
            params@.len() == i,
            forall|j: int| 0 <= j < i ==> params@[j] == spec_default_insertion_params()[j],
        decreases INSERTION_CACHE_SIZE - i,
    {
        let v: u8 = if i < INSERTION_PARAMETER_COUNT { PARAMETER_UNSET } else if i == 20 { 40 } else { 0 };
        params.push(v);
        i = i + 1;
    }
    proof {
        assert(params@ =~= spec_default_insertion_params());
    }
    params
}

/// What GS messages change outside the processors: the insertion cache and whether
/// the delay and insertion effects are in use.
pub struct GsEffectState {
    /// The insertion cache (23 entries).
    pub insertion_params: Vec<u8>,
    pub delay_active: bool,
    pub insertion_active: bool,
}

/// Whether a command turns the delay effect on: the insertion send to delay, the
/// chorus send to delay and every delay parameter.
pub open spec fn spec_activates_delay(cmd: GsCommand) -> bool {
    match cmd {
        GsCommand::EfxSend { target, .. } => target == GsEfxSend::Delay,
        GsCommand::Chorus { parameter, .. } => parameter == GsChorusParameter::SendToDelay,
        GsCommand::Delay { .. } => true,
        _ => false,
    }
}

/// The insertion cache after a command: a parameter is stored at its address minus
/// 3; a new effect type clears the 20 parameters (the sends stay).
pub open spec fn spec_params_after(params: Seq<u8>, cmd: GsCommand) -> Seq<u8> {
    match cmd {
        GsCommand::EfxParameter { address, value } => if 3 <= address < 23 {
            params.update(address - 3, value)
        } else {
            params
        },
        GsCommand::EfxType { .. } => Seq::new(params.len(), |i: int| if i < 20 { 255u8 } else { params[i] }),
        _ => params,
    }
}

/// Whether a command turns the delay effect on (see [`spec_activates_delay`]).
pub fn activates_delay(cmd: &GsCommand) -> (r: bool)
    ensures
        r == spec_activates_delay(*cmd),
{
    match cmd {
        GsCommand::EfxSend { target, .. } => match target {
            GsEfxSend::Delay => true,
            _ => false,
        },
        GsCommand::Chorus { parameter, .. } => match parameter {
            GsChorusParameter::SendToDelay => true,
            _ => false,
        },
        GsCommand::Delay { .. } => true,
        _ => false,
    }
}

impl GsEffectState {
    /// The state of a fresh synthesizer.
    pub fn new() -> (r: Self)
        ensures
            r.insertion_params@ == spec_default_insertion_params(),
            !r.delay_active,
            !r.insertion_active,
    {
        GsEffectState { insertion_params: reset_insertion_params(), delay_active: false, insertion_active: false }
    }

    /// Records what a decoded GS command changes in the cache and the flags.
    pub fn apply(&mut self, cmd: &GsCommand)
        requires
            old(self).insertion_params@.len() == 23,
        ensures
            final(self).insertion_params@ == spec_params_after(old(self).insertion_params@, *cmd),
            final(self).delay_active == (old(self).delay_active || spec_activates_delay(*cmd)),
            final(self).insertion_active == (old(self).insertion_active || (*cmd matches GsCommand::EfxAssign { enabled, .. } && enabled)),
    {
        match cmd {
            GsCommand::EfxParameter { address, value } => {
                if 3 <= *address && *address < 23 {
                    self.insertion_params.set((*address - 3) as usize, *value);
                }
            },
            GsCommand::EfxType { .. } => {
                let mut i: usize = 0;
                let ghost before = self.insertion_params@;
                while i < INSERTION_PARAMETER_COUNT
                    invariant
                        i <= INSERTION_PARAMETER_COUNT,
                        before.len() == 23,
                        self.insertion_params@.len() == 23,
                        self.delay_active == old(self).delay_active,
                        self.insertion_active == old(self).insertion_active,
                        forall|j: int| 0 <= j < i ==> self.insertion_params@[j] == 255u8,
                        forall|j: int| i <= j < 23 ==> self.insertion_params@[j] == before[j],
                    decreases INSERTION_PARAMETER_COUNT - i,
                {
                    self.insertion_params.set(i, PARAMETER_UNSET);
                    i = i + 1;
                }
                proof {
                    assert(self.insertion_params@ =~= spec_params_after(before, *cmd));
                }
            },
            _ => {},
        }
        if activates_delay(cmd) {
            self.delay_active = true;
        }
        if let GsCommand::EfxAssign { enabled, .. } = cmd {
            if *enabled {
                self.insertion_active = true;
            }
        }
    }
}

impl GsEffectState {
    /// Resets the insertion effect unless it is locked: it is no longer in use, the
    /// cache takes its default values and no channel feeds it. Returns whether the
    /// reset happened (the host then puts the Thru effect in place and reports it).
    pub fn reset_insertion(&mut self, insertion_effect_lock: bool, channels: &mut Vec<MidiChannel>) -> (r: bool)
        ensures
            r == !insertion_effect_lock,
            insertion_effect_lock ==> *final(self) == *old(self) && final(channels)@ == old(channels)@,
            !insertion_effect_lock ==> {
                &&& !final(self).insertion_active
                &&& final(self).delay_active == old(self).delay_active
                &&& final(self).insertion_params@ == spec_default_insertion_params()
                &&& final(channels)@ == old(channels)@.map_values(
                    |c: MidiChannel| MidiChannel { insertion_enabled: false, ..c },
                )
            },
    {
        if insertion_effect_lock {
            return false;
        }
        self.insertion_active = false;
        self.insertion_params = reset_insertion_params();
        let ghost before = channels@;
        let mut i: usize = 0;
        while i < channels.len()
            invariant
                i <= channels@.len(),
                channels@.len() == before.len(),
                forall|k: int| 0 <= k < i ==> #[trigger] channels@[k] == (MidiChannel { insertion_enabled: false, ..before[k] }),
                forall|k: int| i <= k < channels@.len() ==> #[trigger] channels@[k] == before[k],
            decreases channels@.len() - i,
        {
            let ghost prev = channels@;
            channels[i].insertion_enabled = false;
            proof {
                assert(channels@ == prev.update(i as int, MidiChannel { insertion_enabled: false, ..prev[i as int] }));
            }
            i = i + 1;
        }
        proof {
            assert(channels@ =~= before.map_values(|c: MidiChannel| MidiChannel { insertion_enabled: false, ..c }));
        }
        true
    }
}

/// The insertion snapshot of an effect type, a cache and the channels.
pub fn get_insertion_snapshot(efx_type: u16, params: &Vec<u8>, channels: &Vec<MidiChannel>) -> (r: InsertionProcessorSnapshot)
    ensures
        r.efx_type == efx_type,
        r.params@ == params@,
        r.channels@ == channels@.map_values(|c: MidiChannel| c.insertion_enabled),
{
    let mut flags: Vec<bool> = Vec::new();
    let mut i: usize = 0;
    while i < channels.len()
        invariant
            i <= channels@.len(),
            flags@ == channels@.take(i as int).map_values(|c: MidiChannel| c.insertion_enabled),
        decreases channels@.len() - i,
    {
        flags.push(channels[i].insertion_enabled);
        i = i + 1;
        proof {
            assert(flags@ =~= channels@.take(i as int).map_values(|c: MidiChannel| c.insertion_enabled));
        }
    }
    proof {
        assert(channels@.take(i as int) =~= channels@);
    }
    InsertionProcessorSnapshot { efx_type, params: params.clone(), channels: flags }
}

/// The GS message that selects an effect type: address 40 03 00 with the type's
/// MSB and its LSB limited to seven bits.
pub open spec fn efx_type_message(efx_type: u16) -> Seq<u8> {
    spec_gs_data(0x40, 0x03, 0x00, seq![(efx_type / 256) as u8, (efx_type % 128) as u8])
}

/// The GS message that sets cached entry `i`: address 40 03 (3 + i).
pub open spec fn efx_parameter_message(i: int, value: u8) -> Seq<u8> {
    spec_gs_data(0x40, 0x03, (3 + i) as u8, seq![value])
}

/// The GS message that assigns the insertion effect to a channel: address
/// 40 4p 22 with the channel's part number p, data 1 for on and 0 for off.
pub open spec fn efx_assign_message(channel: int, enabled: bool) -> Seq<u8> {
    spec_gs_data(0x40, (0x40u8 | spec_channel_to_syx(channel as u8)) as u8, 0x22, seq![if enabled { 1u8 } else { 0u8 }])
}

/// The parameter messages for the cached entries that are set (not 255), in order.
pub open spec fn parameter_messages(params: Seq<u8>) -> Seq<Seq<u8>>
    decreases params.len(),
{
    if params.len() == 0 {
        Seq::empty()
    } else {
        let prev = parameter_messages(params.drop_last());
        if params.last() != 255 {
            prev.push(efx_parameter_message(params.len() - 1, params.last()))
        } else {
            prev
        }
    }
}

/// The assignment messages for all channels, in order.
pub open spec fn assign_messages(channels: Seq<bool>) -> Seq<Seq<u8>> {
    Seq::new(channels.len(), |i: int| efx_assign_message(i, channels[i]))
}

/// The GS messages that restore an insertion snapshot: the effect type, then every
/// cached entry that is set, then the assignment of every channel.
pub open spec fn spec_insertion_restore_messages(
    efx_type: u16,
    params: Seq<u8>,
    channels: Seq<bool>,
) -> Seq<Seq<u8>> {
    seq![efx_type_message(efx_type)] + parameter_messages(params) + assign_messages(channels)
}

/// The views of a list of messages.
pub open spec fn message_views(v: Seq<Vec<u8>>) -> Seq<Seq<u8>> {
    v.map_values(|m: Vec<u8>| m@)
}

/// The GS messages that restore an insertion snapshot through the GS handler (see
/// [`spec_insertion_restore_messages`]).
pub fn insertion_restore_messages(snapshot: &InsertionProcessorSnapshot) -> (r: Vec<Vec<u8>>)
    requires
        snapshot.params@.len() <= 23,
    ensures
        message_views(r@) == spec_insertion_restore_messages(
            snapshot.efx_type,
            snapshot.params@,
            snapshot.channels@,
        ),
{
    let mut out: Vec<Vec<u8>> = Vec::new();
    let msb = (snapshot.efx_type / 256) as u8;
    let lsb = (snapshot.efx_type % 128) as u8;
    let data = [msb, lsb];
    let first = gs_data(0x40, 0x03, 0x00, &data);
    proof {
        assert(data@ =~= seq![msb, lsb]);
    }
    out.push(first);
    proof {
        assert(message_views(out@) =~= seq![efx_type_message(snapshot.efx_type)]);
    }
    let mut i: usize = 0;
    while i < snapshot.params.len()
        invariant
            i <= snapshot.params@.len(),
            snapshot.params@.len() <= 23,
            message_views(out@) == seq![efx_type_message(snapshot.efx_type)]
                + parameter_messages(snapshot.params@.subrange(0, i as int)),
        decreases snapshot.params@.len() - i,
    {
        let p = snapshot.params[i];
        let ghost before = out@;
        proof {
            let sub = snapshot.params@.subrange(0, i + 1);
            assert(sub.drop_last() =~= snapshot.params@.subrange(0, i as int));
            assert(sub.last() == p);
        }
        if p != PARAMETER_UNSET {
            let one = [p];
            let m = gs_data(0x40, 0x03, (3 + i) as u8, &one);
            proof {
                assert(one@ =~= seq![p]);
            }
            out.push(m);
            proof {
                assert(message_views(out@) =~= message_views(before).push(m@));
            }
        }
        i = i + 1;
    }
    proof {
        assert(snapshot.params@.subrange(0, snapshot.params@.len() as int) =~= snapshot.params@);
    }
    let ghost head = message_views(out@);
    let mut c: usize = 0;
    while c < snapshot.channels.len()
        invariant
            c <= snapshot.channels@.len(),
            message_views(out@) == head + assign_messages(snapshot.channels@.subrange(0, c as int)),
        decreases snapshot.channels@.len() - c,
    {
        let enabled = snapshot.channels[c];
        let part = channel_to_syx(#[verifier::truncate] (c as u8));
        let v: u8 = if enabled { 1 } else { 0 };
        let one = [v];
        let m = gs_data(0x40, 0x40 | part, 0x22, &one);
        let ghost before = out@;
        out.push(m);
        proof {
            assert(one@ =~= seq![v]);
            assert(message_views(out@) =~= message_views(before).push(m@));
            assert(assign_messages(snapshot.channels@.subrange(0, c + 1)) =~= assign_messages(
                snapshot.channels@.subrange(0, c as int),
            ).push(efx_assign_message(c as int, enabled)));
        }
        c = c + 1;
    }
    proof {
        assert(snapshot.channels@.subrange(0, snapshot.channels@.len() as int) =~= snapshot.channels@);
    }
    out
}

/// The bytes of a GS data set message with one or two data bytes, as the decoder
/// reads them.
proof fn lemma_gs_data_bytes(a1: u8, a2: u8, a3: u8, data: Seq<u8>)
    requires
        1 <= data.len() <= 2,
    ensures
        spec_gs_data(a1, a2, a3, data).len() == 9 + data.len(),
        spec_gs_data(a1, a2, a3, data)[2] == 0x42,
        spec_gs_data(a1, a2, a3, data)[3] == 0x12,
        spec_gs_data(a1, a2, a3, data)[4] == a1,
        spec_gs_data(a1, a2, a3, data)[5] == a2,
        spec_gs_data(a1, a2, a3, data)[6] == a3,
        spec_gs_data(a1, a2, a3, data)[7] == data[0],
        data.len() == 2 ==> spec_gs_data(a1, a2, a3, data)[8] == data[1],
        gs_readable(spec_gs_data(a1, a2, a3, data)),
{
    let body = seq![a1, a2, a3] + data;
    let m = spec_gs_data(a1, a2, a3, data);
    assert(m == seq![0x41u8, 0x10u8, 0x42u8, 0x12u8] + body + seq![gs_checksum(body), 0xF7u8]);
    assert(m[7] == body[3]);
    assert(body[3] == data[0]);
    if data.len() == 2 {
        assert(m[8] == body[4]);
    }
}

/// A data byte as the insertion effect handler takes it: at most 127.
pub open spec fn clamp_data(v: u8) -> u8 {
    if v > 127 { 127 } else { v }
}

/// The effect-type message decodes to the type with its MSB limited to 127 and its
/// LSB to seven bits; a type whose bytes are both at most 127 comes back unchanged.
pub proof fn lemma_efx_type_message_decodes(efx_type: u16, channel_offset: usize)
    requires
        channel_offset <= usize::MAX - 16,
    ensures
        gs_readable(efx_type_message(efx_type)),
        spec_decode_gs(efx_type_message(efx_type), channel_offset) == (GsCommand::EfxType {
            efx_type: (clamp_data((efx_type / 256) as u8) as int * 256 + efx_type % 128) as u16,
        }),
        efx_type / 256 <= 127 && efx_type % 256 <= 127 ==> spec_decode_gs(
            efx_type_message(efx_type),
            channel_offset,
        ) == (GsCommand::EfxType { efx_type }),
{
    let data = seq![(efx_type / 256) as u8, (efx_type % 128) as u8];
    lemma_gs_data_bytes(0x40, 0x03, 0x00, data);
    assert(0x03u8 & 0x10u8 == 0) by (bit_vector);
    assert(0x03u8 & 0x20u8 == 0) by (bit_vector);
    assert(efx_type % 256 <= 127 ==> efx_type % 128 == efx_type % 256);
}

/// The message for cached entry `i` decodes to the parameter at address `3 + i` for
/// the 20 parameters, and to the reverb, chorus and delay sends for entries 20, 21
/// and 22; the value is limited to 127.
pub proof fn lemma_parameter_message_decodes(i: int, value: u8, channel_offset: usize)
    requires
        0 <= i < 23,
        channel_offset <= usize::MAX - 16,
    ensures
        gs_readable(efx_parameter_message(i, value)),
        spec_decode_gs(efx_parameter_message(i, value), channel_offset) == if i < 20 {
            GsCommand::EfxParameter { address: (3 + i) as u8, value: clamp_data(value) }
        } else if i == 20 {
            GsCommand::EfxSend { target: GsEfxSend::Reverb, value: clamp_data(value) }
        } else if i == 21 {
            GsCommand::EfxSend { target: GsEfxSend::Chorus, value: clamp_data(value) }
        } else {
            GsCommand::EfxSend { target: GsEfxSend::Delay, value: clamp_data(value) }
        },
{
    lemma_gs_data_bytes(0x40, 0x03, (3 + i) as u8, seq![value]);
    assert(0x03u8 & 0x10u8 == 0) by (bit_vector);
    assert(0x03u8 & 0x20u8 == 0) by (bit_vector);
}

/// The assignment message of one of a port's sixteen channels decodes to the
/// assignment of that channel (shifted by the port offset).
pub proof fn lemma_assign_message_decodes(channel: int, enabled: bool, channel_offset: usize)
    requires
        0 <= channel < 16,
        channel_offset <= usize::MAX - 16,
    ensures
        gs_readable(efx_assign_message(channel, enabled)),
        spec_decode_gs(efx_assign_message(channel, enabled), channel_offset) == (GsCommand::EfxAssign {
            channel: (channel + channel_offset) as usize,
            enabled,
        }),
{
    let part = spec_channel_to_syx(channel as u8);
    lemma_part_channel_roundtrip(channel as u8, part);
    assert(part < 16);
    let a2 = (0x40u8 | part) as u8;
    lemma_gs_data_bytes(0x40, a2, 0x22, seq![if enabled { 1u8 } else { 0u8 }]);
    assert(a2 & 0x10 == 0 && a2 & 0x20 == 0 && a2 != 0 && a2 != 3 && a2 != 1 && a2 >> 4u8 == 4
        && a2 & 0x0f == part) by (bit_vector)
        requires
            part < 16,
            a2 == 0x40u8 | part,
    ;
}

/// Every assignment message decodes to an assignment, whatever the channel.
proof fn lemma_assign_message_is_assign(channel: int, enabled: bool)
    ensures
        spec_decode_gs(efx_assign_message(channel, enabled), 0) is EfxAssign,
{
    let part = spec_channel_to_syx(channel as u8);
    assert(part < 16);
    let a2 = (0x40u8 | part) as u8;
    lemma_gs_data_bytes(0x40, a2, 0x22, seq![if enabled { 1u8 } else { 0u8 }]);
    assert(a2 & 0x10 == 0 && a2 & 0x20 == 0 && a2 != 0 && a2 != 3 && a2 != 1 && a2 >> 4u8 == 4)
        by (bit_vector)
        requires
            part < 16,
            a2 == 0x40u8 | part,
    ;
}

/// The commands that messages decode to (port offset 0).
pub open spec fn decoded(msgs: Seq<Seq<u8>>) -> Seq<GsCommand> {
    msgs.map_values(|m: Seq<u8>| spec_decode_gs(m, 0))
}

/// The insertion cache after a series of commands, applied in order.
pub open spec fn params_after_all(params: Seq<u8>, cmds: Seq<GsCommand>) -> Seq<u8>
    decreases cmds.len(),
{
    if cmds.len() == 0 {
        params
    } else {
        spec_params_after(params_after_all(params, cmds.drop_last()), cmds.last())
    }
}

proof fn lemma_params_after_append(params: Seq<u8>, a: Seq<GsCommand>, b: Seq<GsCommand>)
    ensures
        params_after_all(params, a + b) == params_after_all(params_after_all(params, a), b),
    decreases b.len(),
{
    if b.len() > 0 {
        assert((a + b).drop_last() =~= a + b.drop_last());
        lemma_params_after_append(params, a, b.drop_last());
    } else {
        assert(a + b =~= a);
    }
}

proof fn lemma_assignments_keep_params(params: Seq<u8>, channels: Seq<bool>)
    ensures
        params_after_all(params, decoded(assign_messages(channels))) == params,
    decreases channels.len(),
{
    if channels.len() > 0 {
        let d = channels.drop_last();
        assert(decoded(assign_messages(channels)).drop_last() =~= decoded(assign_messages(d)));
        lemma_assignments_keep_params(params, d);
        lemma_assign_message_is_assign(channels.len() - 1, channels.last());
    } else {
        assert(decoded(assign_messages(channels)) =~= Seq::<GsCommand>::empty());
    }
}

/// Whether a cached parameter value survives the GS handler unchanged: a 7-bit
/// value, or 255 for "no change".
pub open spec fn restorable(v: u8) -> bool {
    v <= 127 || v == 255
}

proof fn lemma_parameter_messages_restore(start: Seq<u8>, params: Seq<u8>, k: int)
    requires
        start.len() == 23,
        forall|j: int| 0 <= j < 20 ==> start[j] == 255u8,
        params.len() <= 23,
        0 <= k <= params.len(),
        forall|j: int| 0 <= j < params.len() && j < 20 ==> restorable(params[j]),
    ensures
        params_after_all(start, decoded(parameter_messages(params.subrange(0, k)))).len() == 23,
        forall|j: int| 0 <= j < 20 ==> #[trigger] params_after_all(
            start,
            decoded(parameter_messages(params.subrange(0, k))),
        )[j] == if j < k { params[j] } else { 255u8 },
    decreases k,
{
    let cur = params_after_all(start, decoded(parameter_messages(params.subrange(0, k))));
    if k == 0 {
        assert(parameter_messages(params.subrange(0, 0)) =~= Seq::<Seq<u8>>::empty());
        assert(decoded(parameter_messages(params.subrange(0, 0))) =~= Seq::<GsCommand>::empty());
    } else {
        lemma_parameter_messages_restore(start, params, k - 1);
        let sub = params.subrange(0, k);
        assert(sub.drop_last() =~= params.subrange(0, k - 1));
        let prev = params_after_all(start, decoded(parameter_messages(params.subrange(0, k - 1))));
        if params[k - 1] != 255 {
            let msg = efx_parameter_message(k - 1, params[k - 1]);
            assert(parameter_messages(sub) == parameter_messages(params.subrange(0, k - 1)).push(msg));
            assert(decoded(parameter_messages(sub)) =~= decoded(parameter_messages(params.subrange(0, k - 1))).push(
                spec_decode_gs(msg, 0),
            ));
            assert(decoded(parameter_messages(sub)).drop_last() =~= decoded(parameter_messages(params.subrange(0, k - 1))));
            lemma_parameter_message_decodes(k - 1, params[k - 1], 0);
            assert(cur == spec_params_after(prev, spec_decode_gs(msg, 0)));
        } else {
            assert(parameter_messages(sub) == parameter_messages(params.subrange(0, k - 1)));
        }
    }
}

/// Restoring an insertion snapshot through its GS messages reproduces its 20 cached
/// parameters, whatever the cache held before, as long as each cached value is a
/// 7-bit value or 255 ("no change").
pub proof fn lemma_restore_reproduces_parameters(
    before: Seq<u8>,
    efx_type: u16,
    params: Seq<u8>,
    channels: Seq<bool>,
)
    requires
        before.len() == 23,
        params.len() == 23,
        forall|j: int| 0 <= j < 20 ==> restorable(#[trigger] params[j]),
    ensures
        params_after_all(before, decoded(spec_insertion_restore_messages(efx_type, params, channels))).len() == 23,
        forall|j: int| 0 <= j < 20 ==> #[trigger] params_after_all(
            before,
            decoded(spec_insertion_restore_messages(efx_type, params, channels)),
        )[j] == params[j],
{
    let t = seq![efx_type_message(efx_type)];
    let pm = parameter_messages(params);
    let am = assign_messages(channels);
    assert(decoded(t + pm + am) =~= decoded(t) + decoded(pm) + decoded(am));
    lemma_params_after_append(before, decoded(t) + decoded(pm), decoded(am));
    lemma_params_after_append(before, decoded(t), decoded(pm));
    lemma_efx_type_message_decodes(efx_type, 0);
    assert(decoded(t).drop_last() =~= Seq::<GsCommand>::empty());
    let start = params_after_all(before, decoded(t));
    assert(start == spec_params_after(before, decoded(t).last())) by {
        reveal_with_fuel(params_after_all, 2);
    }
    assert(params.subrange(0, 23) =~= params);
    lemma_parameter_messages_restore(start, params, 23);
    lemma_assignments_keep_params(params_after_all(start, decoded(pm)), channels);
}

} // verus!
