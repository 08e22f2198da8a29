//! Decoding of universal (General MIDI) system exclusive messages: device control,
//! GM system on/off and the MIDI Tuning Standard. The message is given without its
//! leading 0xF0: byte 2 is the sub-ID and byte 3 the second sub-ID.
use vstd::prelude::*;
use crate::midi_system::MIDISystem;

verus! {

/// Which kind of universal message was not recognized.
#[derive(Clone, Copy, Debug, PartialEq, Eq, Structural)]
pub enum GmUnrecognized {
    /// "MIDI Tuning Standard"
    TuningStandard,
    /// "General MIDI"
    GeneralMidi,
    /// A device control message of an unknown kind.
    DeviceControl,
}

/// The change a universal message asks of the engine.
#[derive(Clone, Copy, Debug, PartialEq, Eq, Structural)]
pub enum GmCommand {
    NotRecognized(GmUnrecognized),
    /// Master volume, a 14-bit value where 16384 is unity.
    MasterVolume { volume: u32 },
    /// Master balance, a 14-bit value with 8192 in the centre.
    MasterBalance { balance: u32 },
    /// Master fine tuning in cents.
    MasterFineTuning { cents: i32 },
    /// Master coarse tuning in cents.
    MasterCoarseTuning { cents: i32 },
    /// Resets all controllers to the given system (GM1 or GM2 on).
    Reset(MIDISystem),
    /// GM system off: the MIDI system becomes GS.
    SystemOff,
    /// A bulk tuning dump of 128 notes for a tuning program (see `mts_bulk_tunings`).
    BulkTuningDump { program: u8 },
    /// A bulk tuning dump that is too short to hold its notes; it changes nothing.
    BulkTuningTooShort,
    /// Single note tuning changes for a tuning program (see `mts_single_note_changes`).
    SingleNoteTuning { program: u8, changes: u8 },
    /// Octave scale tuning of some channels (see `mts_octave_tuning` and
    /// `mts_octave_channels`); `two_bytes` tells the encoding.
    OctaveTuning { two_bytes: bool },
}

/// The tuning of one note in the MIDI Tuning Standard: no change (all three bytes
/// 0x7F), or a semitone and a 14-bit fraction of a semitone.
#[derive(Clone, Copy, Debug, PartialEq, Eq, Structural)]
pub enum MtsTuning {
    NoChange,
    Tuned { semitone: u8, fraction: u32 },
}

/// The note tuning three bytes give.
pub open spec fn spec_mts_tuning(b1: u8, b2: u8, b3: u8) -> MtsTuning {
    if b1 == 0x7f && b2 == 0x7f && b3 == 0x7f {
        MtsTuning::NoChange
    } else {
        MtsTuning::Tuned { semitone: b1, fraction: ((b2 as u32) << 7u32) | (b3 as u32) }
    }
}

/// The note tuning three bytes give (see [`spec_mts_tuning`]).
pub fn mts_tuning(b1: u8, b2: u8, b3: u8) -> (r: MtsTuning)
    ensures
        r == spec_mts_tuning(b1, b2, b3),
{
    if b1 == 0x7f && b2 == 0x7f && b3 == 0x7f {
        MtsTuning::NoChange
    } else {
        MtsTuning::Tuned { semitone: b1, fraction: ((b2 as u32) << 7u32) | (b3 as u32) }
    }
}

/// Where the changes of a single note tuning message start: after the program and
/// change count, and after the bank byte in the banked form (0x07).
pub open spec fn mts_changes_start(s: Seq<u8>) -> int {
    if s[3] == 0x07 { 7 } else { 6 }
}

/// Whether every byte the universal handler reads is present.
pub open spec fn gm_readable(s: Seq<u8>) -> bool {
    &&& s.len() >= 3
    &&& s[2] == 0x04 ==> s.len() >= 4 && (s[3] == 0x01 || s[3] == 0x02 || s[3] == 0x04 ==> s.len() >= 6)
        && (s[3] == 0x03 ==> s.len() >= 7)
    &&& s[2] == 0x09 ==> s.len() >= 4
    &&& s[2] == 0x08 ==> s.len() >= 4 && {
        &&& s[3] == 0x01 ==> s.len() >= 5 && (s.len() >= 384 ==> s.len() >= 405)
        &&& (s[3] == 0x02 || s[3] == 0x07) ==> s.len() >= mts_changes_start(s)
            && s.len() >= mts_changes_start(s) + 4 * s[mts_changes_start(s) - 1]
        &&& s[3] == 0x08 ==> s.len() >= 19
        &&& s[3] == 0x09 ==> s.len() >= 31
    }
}

/// A 14-bit value from its MSB and LSB bytes: `msb << 7 | lsb`.
pub open spec fn fourteen_bit(msb: u8, lsb: u8) -> u32 {
    ((msb as u32) << 7u32) | (lsb as u32)
}

/// Cents of a 14-bit tuning value with 8192 as zero and 8192 steps per 100 cents,
/// rounded down.
pub open spec fn spec_fine_cents(t: int) -> int {
    (t - 8192) * 25 / 2048
}

/// The change a universal message asks for.
pub open spec fn spec_decode_gm(s: Seq<u8>) -> GmCommand {
    if s[2] == 0x04 {
        if s[3] == 0x01 {
            GmCommand::MasterVolume { volume: fourteen_bit(s[5], s[4]) }
        } else if s[3] == 0x02 {
            GmCommand::MasterBalance { balance: fourteen_bit(s[5], s[4]) }
        } else if s[3] == 0x03 {
            GmCommand::MasterFineTuning { cents: spec_fine_cents(fourteen_bit(s[5], s[6]) as int) as i32 }
        } else if s[3] == 0x04 {
            GmCommand::MasterCoarseTuning { cents: ((s[5] - 64) * 100) as i32 }
        } else {
            GmCommand::NotRecognized(GmUnrecognized::DeviceControl)
        }
    } else if s[2] == 0x09 {
        if s[3] == 0x01 {
            GmCommand::Reset(MIDISystem::Gm)
        } else if s[3] == 0x03 {
            GmCommand::Reset(MIDISystem::Gm2)
        } else {
            GmCommand::SystemOff
        }
    } else if s[2] == 0x08 {
        if s[3] == 0x01 {
            if s.len() < 384 { GmCommand::BulkTuningTooShort } else { GmCommand::BulkTuningDump { program: s[4] } }
        } else if s[3] == 0x02 || s[3] == 0x07 {
            GmCommand::SingleNoteTuning {
                program: s[mts_changes_start(s) - 2],
                changes: s[mts_changes_start(s) - 1],
            }
        } else if s[3] == 0x08 {
            GmCommand::OctaveTuning { two_bytes: false }
        } else if s[3] == 0x09 {
            GmCommand::OctaveTuning { two_bytes: true }
        } else {
            GmCommand::NotRecognized(GmUnrecognized::TuningStandard)
        }
    } else {
        GmCommand::NotRecognized(GmUnrecognized::GeneralMidi)
    }
}

fn fourteen_bit_exec(msb: u8, lsb: u8) -> (r: u32)
    ensures
        r == fourteen_bit(msb, lsb),
        r <= 32767,
{
    let r = ((msb as u32) << 7u32) | (lsb as u32);
    assert(r <= 32767) by (bit_vector)
        requires
            r == ((msb as u32) << 7u32) | (lsb as u32),
    ;
    r
}

/// Cents of a 14-bit tuning value (see [`spec_fine_cents`]).
pub fn fine_cents(t: u32) -> (r: i32)
    requires
        t <= 32767,
    ensures
        r == spec_fine_cents(t as int),
{
    let q = (t * 25 / 2048) as i32;
    proof {
        assert((t as int * 25) / 2048 - 100 == (t as int - 8192) * 25 / 2048) by (nonlinear_arith)
            requires
                0 <= t <= 32767,
        ;
    }
    q - 100
}

/// Whether every byte that decoding a universal message reads is present.
pub fn is_gm_readable(syx: &[u8]) -> (r: bool)
    ensures
        r == gm_readable(syx@),
{
    let len = syx.len();
    if len < 3 {
        return false;
    }
    let sub1 = syx[2];
    if sub1 == 0x04 {
        if len < 4 {
            return false;
        }
        let sub2 = syx[3];
        if sub2 == 0x01 || sub2 == 0x02 || sub2 == 0x04 {
            len >= 6
        } else if sub2 == 0x03 {
            len >= 7
        } else {
            true
        }
    } else if sub1 == 0x09 {
        len >= 4
    } else if sub1 == 0x08 {
        if len < 4 {
            return false;
        }
        let sub2 = syx[3];
        if sub2 == 0x01 {
            len >= 5 && (len < 384 || len >= 405)
        } else if sub2 == 0x02 || sub2 == 0x07 {
            let start: usize = if sub2 == 0x07 { 7 } else { 6 };
            len >= start && len - start >= 4 * (syx[start - 1] as usize)
        } else if sub2 == 0x08 {
            len >= 19
        } else if sub2 == 0x09 {
            len >= 31
        } else {
            true
        }
    } else {
        true
    }
}

/// Decodes a universal system exclusive message (without its leading 0xF0) into the
/// change it asks of the engine.
pub fn decode_gm(syx: &[u8]) -> (r: GmCommand)
    requires
        gm_readable(syx@),
    ensures
        r == spec_decode_gm(syx@),
{
    let sub1 = syx[2];
    if sub1 == 0x04 {
        let sub2 = syx[3];
        if sub2 == 0x01 {
            GmCommand::MasterVolume { volume: fourteen_bit_exec(syx[5], syx[4]) }
        } else if sub2 == 0x02 {
            GmCommand::MasterBalance { balance: fourteen_bit_exec(syx[5], syx[4]) }
        } else if sub2 == 0x03 {
            let t = fourteen_bit_exec(syx[5], syx[6]);
            GmCommand::MasterFineTuning { cents: fine_cents(t) }
        } else if sub2 == 0x04 {
            GmCommand::MasterCoarseTuning { cents: (syx[5] as i32 - 64) * 100 }
        } else {
            GmCommand::NotRecognized(GmUnrecognized::DeviceControl)
        }
    } else if sub1 == 0x09 {
        if syx[3] == 0x01 {
            GmCommand::Reset(MIDISystem::Gm)
        } else if syx[3] == 0x03 {
            GmCommand::Reset(MIDISystem::Gm2)
        } else {
            GmCommand::SystemOff
        }
    } else if sub1 == 0x08 {
        let sub2 = syx[3];
        if sub2 == 0x01 {
            if syx.len() < 384 { GmCommand::BulkTuningTooShort } else { GmCommand::BulkTuningDump { program: syx[4] } }
        } else if sub2 == 0x02 || sub2 == 0x07 {
            let start: usize = if sub2 == 0x07 { 7 } else { 6 };
            GmCommand::SingleNoteTuning { program: syx[start - 2], changes: syx[start - 1] }
        } else if sub2 == 0x08 {
            GmCommand::OctaveTuning { two_bytes: false }
        } else if sub2 == 0x09 {
            GmCommand::OctaveTuning { two_bytes: true }
        } else {
            GmCommand::NotRecognized(GmUnrecognized::TuningStandard)
        }
    } else {
        GmCommand::NotRecognized(GmUnrecognized::GeneralMidi)
    }
}

/// The 128 note tunings of a bulk tuning dump: three bytes per note from byte 21 on
/// (after the program and the 16-byte name).
pub open spec fn spec_mts_bulk_tunings(s: Seq<u8>) -> Seq<MtsTuning> {
    Seq::new(128, |n: int| spec_mts_tuning(s[21 + 3 * n], s[22 + 3 * n], s[23 + 3 * n]))
}

/// The 128 note tunings of a bulk tuning dump (see [`spec_mts_bulk_tunings`]).
pub fn mts_bulk_tunings(syx: &[u8]) -> (r: Vec<MtsTuning>)
    requires
        syx@.len() >= 405,
    ensures
        r@ == spec_mts_bulk_tunings(syx@),
{
    let mut out: Vec<MtsTuning> = Vec::new();
    let mut n: usize = 0;
    while n < 128
        invariant
            n <= 128,
            syx@.len() >= 405,
            out@.len() == n,
            forall|j: int| 0 <= j < n ==> out@[j] == spec_mts_bulk_tunings(syx@)[j],
        decreases 128 - n,
    {
        let i = 21 + 3 * n;
        out.push(mts_tuning(syx[i], syx[i + 1], syx[i + 2]));
        n = n + 1;
    }
    proof {
        assert(out@ =~= spec_mts_bulk_tunings(syx@));
    }
    out
}

/// The changes of a single note tuning message: for each, the note and its tuning,
/// four bytes per change.
pub open spec fn spec_mts_single_note_changes(s: Seq<u8>) -> Seq<(u8, MtsTuning)> {
    let start = mts_changes_start(s);
    Seq::new(
        s[start - 1] as nat,
        |k: int| (s[start + 4 * k], spec_mts_tuning(s[start + 4 * k + 1], s[start + 4 * k + 2], s[start + 4 * k + 3])),
    )
}

/// The changes of a single note tuning message (see [`spec_mts_single_note_changes`]).
pub fn mts_single_note_changes(syx: &[u8]) -> (r: Vec<(u8, MtsTuning)>)
    requires
        syx@.len() >= 4,
        syx@[3] == 0x02 || syx@[3] == 0x07,
        syx@.len() >= mts_changes_start(syx@),
        syx@.len() >= mts_changes_start(syx@) + 4 * syx@[mts_changes_start(syx@) - 1],
    ensures
        r@ == spec_mts_single_note_changes(syx@),
{
    let start: usize = if syx[3] == 0x07 { 7 } else { 6 };
    let count = syx[start - 1] as usize;
    let mut out: Vec<(u8, MtsTuning)> = Vec::new();
    let mut k: usize = 0;
    while k < count
        invariant
            k <= count,
            start == mts_changes_start(syx@),
            count == syx@[start - 1],
            syx@.len() >= start + 4 * count,
            out@.len() == k,
            forall|j: int| 0 <= j < k ==> out@[j] == spec_mts_single_note_changes(syx@)[j],
        decreases count - k,
    {
        let i = start + 4 * k;
        out.push((syx[i], mts_tuning(syx[i + 1], syx[i + 2], syx[i + 3])));
        k = k + 1;
    }
    proof {
        assert(out@ =~= spec_mts_single_note_changes(syx@));
    }
    out
}

/// The octave tuning (12 entries, in cents) of an octave tuning message. One-byte
/// entries are the byte minus 64 truncated to a signed byte; two-byte entries are
/// 14-bit values with 8192 as zero and 8192 steps per 100 cents, rounded down and
/// limited to 127.
pub open spec fn spec_mts_octave_tuning(s: Seq<u8>, two_bytes: bool) -> Seq<i8> {
    Seq::new(12, |i: int| if two_bytes {
        let c = spec_fine_cents(fourteen_bit(s[7 + 2 * i], s[8 + 2 * i]) as int);
        (if c > 127 { 127 } else { c }) as i8
    } else {
        (s[7 + i] - 64) as i8
    })
}

/// The octave tuning of an octave tuning message (see [`spec_mts_octave_tuning`]).
pub fn mts_octave_tuning(syx: &[u8], two_bytes: bool) -> (r: Vec<i8>)
    requires
        syx@.len() >= (if two_bytes { 31int } else { 19int }),
    ensures
        r@ == spec_mts_octave_tuning(syx@, two_bytes),
{
    let mut out: Vec<i8> = Vec::new();
    let mut i: usize = 0;
    while i < 12
        invariant
            i <= 12,
            syx@.len() >= (if two_bytes { 31int } else { 19int }),
            out@.len() == i,
            forall|j: int| 0 <= j < i ==> out@[j] == spec_mts_octave_tuning(syx@, two_bytes)[j],
        decreases 12 - i,
    {
        let v: i8 = if two_bytes {
            let t = fourteen_bit_exec(syx[7 + 2 * i], syx[8 + 2 * i]);
            let c = fine_cents(t);
            if c > 127 { 127 } else { c as i8 }
        } else {
            #[verifier::truncate] ((syx[7 + i] as i16 - 64) as i8)
        };
        out.push(v);
        i = i + 1;
    }
    proof {
        assert(out@ =~= spec_mts_octave_tuning(syx@, two_bytes));
    }
    out
}

/// Whether bit `b` of byte `x` is set.
pub open spec fn bit_set(x: u8, b: u8) -> bool {
    (x >> b) & 1 == 1
}

/// The channels an octave tuning message addresses, in the order they are tuned:
/// bits 0 and 1 of byte 4 are channels 14 and 15, bits 0-6 of byte 5 channels 7-13,
/// bits 0-6 of byte 6 channels 0-6; each shifted by the port offset.
pub open spec fn spec_mts_octave_channels(s: Seq<u8>, channel_offset: usize) -> Seq<usize> {
    let high = Seq::new(2, |i: int| i).filter(|i: int| bit_set(s[4], i as u8));
    let mid = Seq::new(7, |i: int| i).filter(|i: int| bit_set(s[5], i as u8));
    let low = Seq::new(7, |i: int| i).filter(|i: int| bit_set(s[6], i as u8));
    high.map_values(|i: int| (14 + i + channel_offset) as usize)
        + mid.map_values(|i: int| (7 + i + channel_offset) as usize)
        + low.map_values(|i: int| (i + channel_offset) as usize)
}

/// Appends `base + i + offset` for each bit `i < n` set in `x`, in order.
fn push_set_bits(out: &mut Vec<usize>, x: u8, n: u8, base: usize, channel_offset: usize)
    requires
        n <= 7,
        base <= 14,
        channel_offset <= usize::MAX - 32,
    ensures
        final(out)@ == old(out)@ + Seq::new(n as nat, |i: int| i).filter(|i: int| bit_set(x, i as u8)).map_values(
            |i: int| (base + i + channel_offset) as usize,
        ),
{
    let ghost start = out@;
    let ghost f = |i: int| (base + i + channel_offset) as usize;
    let ghost p = |i: int| bit_set(x, i as u8);
    let mut i: u8 = 0;
    while i < n
        invariant
            i <= n,
            n <= 7,
            base <= 14,
            channel_offset <= usize::MAX - 32,
            f == (|i: int| (base + i + channel_offset) as usize),
            p == (|i: int| bit_set(x, i as u8)),
            out@ == start + Seq::new(i as nat, |j: int| j).filter(p).map_values(f),
        decreases n - i,
    {
        let ghost before = out@;
        let set = (x >> i) & 1 == 1;
        proof {
            let full = Seq::new((i + 1) as nat, |j: int| j);
            assert(full.drop_last() =~= Seq::new(i as nat, |j: int| j));
            assert(full.last() == i as int);
            assert(full.filter(p) == if p(i as int) {
                Seq::new(i as nat, |j: int| j).filter(p).push(i as int)
            } else {
                Seq::new(i as nat, |j: int| j).filter(p)
            }) by {
                reveal(Seq::filter);
            }
            assert(p(i as int) == set);
        }
        if set {
            out.push(base + i as usize + channel_offset);
            proof {
                assert(Seq::new(i as nat, |j: int| j).filter(p).push(i as int).map_values(f)
                    =~= Seq::new(i as nat, |j: int| j).filter(p).map_values(f).push(f(i as int)));
                assert(out@ =~= start + Seq::new((i + 1) as nat, |j: int| j).filter(p).map_values(f));
            }
        }
        i = i + 1;
    }
}

/// The channels an octave tuning message addresses (see [`spec_mts_octave_channels`]).
pub fn mts_octave_channels(syx: &[u8], channel_offset: usize) -> (r: Vec<usize>)
    requires
        syx@.len() >= 7,
        channel_offset <= usize::MAX - 32,
    ensures
        r@ == spec_mts_octave_channels(syx@, channel_offset),
{
    let mut out: Vec<usize> = Vec::new();
    push_set_bits(&mut out, syx[4], 2, 14, channel_offset);
    push_set_bits(&mut out, syx[5], 7, 7, channel_offset);
    push_set_bits(&mut out, syx[6], 7, 0, channel_offset);
    proof {
        assert(Seq::<usize>::empty() + Seq::new(2, |i: int| i).filter(|i: int| bit_set(syx@[4], i as u8)).map_values(
            |i: int| (14 + i + channel_offset) as usize,
        ) =~= Seq::new(2, |i: int| i).filter(|i: int| bit_set(syx@[4], i as u8)).map_values(
            |i: int| (14 + i + channel_offset) as usize,
        ));
        assert(out@ =~= spec_mts_octave_channels(syx@, channel_offset));
    }
    out
}

} // verus!
