//! The parameters of the reverb, chorus and delay effects (all 0-127, as GS sets
//! them) and the GS macros that preset them (SC-8850 manual, pages 83-85).
use vstd::prelude::*;

verus! {

/// Reverb parameters.
#[derive(Clone, Copy, Debug, PartialEq, Eq, Structural)]
pub struct ReverbParams {
    pub level: u8,
    pub pre_lowpass: u8,
    pub character: u8,
    pub time: u8,
    pub delay_feedback: u8,
    pub pre_delay_time: u8,
}

/// Chorus parameters.
#[derive(Clone, Copy, Debug, PartialEq, Eq, Structural)]
pub struct ChorusParams {
    pub level: u8,
    pub pre_lowpass: u8,
    pub depth: u8,
    pub delay: u8,
    pub send_level_to_delay: u8,
    pub send_level_to_reverb: u8,
    pub rate: u8,
    pub feedback: u8,
}

/// Delay parameters.
#[derive(Clone, Copy, Debug, PartialEq, Eq, Structural)]
pub struct DelayParams {
    pub level: u8,
    pub pre_lowpass: u8,
    pub time_center: u8,
    pub time_ratio_right: u8,
    pub time_ratio_left: u8,
    pub level_center: u8,
    pub level_left: u8,
    pub level_right: u8,
    pub feedback: u8,
    pub send_level_to_reverb: u8,
}

/// The reverb a macro selects: Room 1-3, Hall 1-2, Plate, Delay and Panning Delay
/// (macros 0-7). Each has level 64, no pre-delay and the macro as its character.
pub open spec fn spec_reverb_macro(m: u8) -> Option<ReverbParams> {
    let (pre_lowpass, time, delay_feedback) = if m == 0 { (3u8, 80u8, 0u8) }
        else if m == 1 { (4u8, 56u8, 0u8) }
        else if m == 2 { (0u8, 72u8, 0u8) }
        else if m == 3 { (4u8, 72u8, 0u8) }
        else if m == 4 { (0u8, 64u8, 0u8) }
        else if m == 5 { (0u8, 88u8, 0u8) }
        else if m == 6 { (0u8, 32u8, 40u8) }
        else { (0u8, 64u8, 32u8) };
    if m <= 7 {
        Some(ReverbParams { level: 64, pre_lowpass, character: m, time, delay_feedback, pre_delay_time: 0 })
    } else {
        None
    }
}

/// The chorus a macro selects: Chorus 1-4, Feedback Chorus, Flanger, Short Delay and
/// Short Delay with feedback (macros 0-7). Each has level 64, no pre-lowpass and no
/// sends.
pub open spec fn spec_chorus_macro(m: u8) -> Option<ChorusParams> {
    let (feedback, delay, rate, depth) = if m == 0 { (0u8, 112u8, 3u8, 5u8) }
        else if m == 1 { (5u8, 80u8, 9u8, 19u8) }
        else if m == 2 { (8u8, 80u8, 3u8, 19u8) }
        else if m == 3 { (16u8, 64u8, 9u8, 16u8) }
        else if m == 4 { (64u8, 127u8, 2u8, 24u8) }
        else if m == 5 { (112u8, 127u8, 1u8, 5u8) }
        else if m == 6 { (0u8, 127u8, 0u8, 127u8) }
        else { (80u8, 127u8, 0u8, 127u8) };
    if m <= 7 {
        Some(ChorusParams {
            level: 64,
            pre_lowpass: 0,
            depth,
            delay,
            send_level_to_delay: 0,
            send_level_to_reverb: 0,
            rate,
            feedback,
        })
    } else {
        None
    }
}

/// The delay a macro selects: Delay 1-4, Pan Delay 1-4, Delay to Reverb and Pan
/// Repeat (macros 0-9). Each has level 64 and no pre-lowpass.
pub open spec fn spec_delay_macro(m: u8) -> Option<DelayParams> {
    // (time_center, ratio_left, ratio_right, level_center, level_left, level_right, feedback, to_reverb)
    let t = if m == 0 { (97u8, 1u8, 1u8, 127u8, 0u8, 0u8, 80u8, 0u8) }
        else if m == 1 { (106u8, 1u8, 1u8, 127u8, 0u8, 0u8, 80u8, 0u8) }
        else if m == 2 { (115u8, 1u8, 1u8, 127u8, 0u8, 0u8, 72u8, 0u8) }
        else if m == 3 { (83u8, 1u8, 1u8, 127u8, 0u8, 0u8, 72u8, 0u8) }
        else if m == 4 { (105u8, 12u8, 24u8, 0u8, 125u8, 60u8, 74u8, 0u8) }
        else if m == 5 { (109u8, 12u8, 24u8, 0u8, 125u8, 60u8, 71u8, 0u8) }
        else if m == 6 { (115u8, 12u8, 24u8, 0u8, 120u8, 64u8, 73u8, 0u8) }
        else if m == 7 { (93u8, 12u8, 24u8, 0u8, 120u8, 64u8, 72u8, 0u8) }
        else if m == 8 { (109u8, 12u8, 24u8, 0u8, 114u8, 60u8, 61u8, 36u8) }
        else { (110u8, 21u8, 32u8, 97u8, 127u8, 67u8, 40u8, 0u8) };
    if m <= 9 {
        Some(DelayParams {
            level: 64,
            pre_lowpass: 0,
            time_center: t.0,
            time_ratio_right: t.2,
            time_ratio_left: t.1,
            level_center: t.3,
            level_left: t.4,
            level_right: t.5,
            feedback: t.6,
            send_level_to_reverb: t.7,
        })
    } else {
        None
    }
}

/// Applies a reverb macro. While the reverb is locked nothing changes. A known macro
/// sets every parameter and is reported (the result is the macro). An unknown one
/// has still set the level to 64, the pre-delay to 0 and the character to the macro
/// number, and is not reported.
pub fn set_reverb_macro(params: &mut ReverbParams, macro_num: u8, locked: bool) -> (r: Option<u8>)
    ensures
        locked ==> *final(params) == *old(params) && r is None,
        !locked ==> match spec_reverb_macro(macro_num) {
            Some(p) => *final(params) == p && r == Some(macro_num),
            None => *final(params) == (ReverbParams {
                level: 64,
                pre_delay_time: 0,
                character: macro_num,
                ..*old(params)
            }) && r is None,
        },
{
    if locked {
        return None;
    }
    params.level = 64;
    params.pre_delay_time = 0;
    params.character = macro_num;
    let (pre_lowpass, time, delay_feedback): (u8, u8, u8) = match macro_num {
        0 => (3, 80, 0),
        1 => (4, 56, 0),
        2 => (0, 72, 0),
        3 => (4, 72, 0),
        4 => (0, 64, 0),
        5 => (0, 88, 0),
        6 => (0, 32, 40),
        7 => (0, 64, 32),
        _ => {
            return None;
        },
    };
    params.pre_lowpass = pre_lowpass;
    params.time = time;
    params.delay_feedback = delay_feedback;
    Some(macro_num)
}

/// Applies a chorus macro. While the chorus is locked nothing changes. A known
/// macro sets every parameter and is reported. An unknown one has still set the
/// level to 64, the pre-lowpass to 0, the delay to 127 and both sends to 0, and is
/// not reported.
pub fn set_chorus_macro(params: &mut ChorusParams, macro_num: u8, locked: bool) -> (r: Option<u8>)
    ensures
        locked ==> *final(params) == *old(params) && r is None,
        !locked ==> match spec_chorus_macro(macro_num) {
            Some(p) => *final(params) == p && r == Some(macro_num),
            None => *final(params) == (ChorusParams {
                level: 64,
                pre_lowpass: 0,
                delay: 127,
                send_level_to_delay: 0,
                send_level_to_reverb: 0,
                ..*old(params)
            }) && r is None,
        },
{
    if locked {
        return None;
    }
    params.level = 64;
    params.pre_lowpass = 0;
    params.delay = 127;
    params.send_level_to_delay = 0;
    params.send_level_to_reverb = 0;
    let (feedback, delay, rate, depth): (u8, u8, u8, u8) = match macro_num {
        0 => (0, 112, 3, 5),
        1 => (5, 80, 9, 19),
        2 => (8, 80, 3, 19),
        3 => (16, 64, 9, 16),
        4 => (64, 127, 2, 24),
        5 => (112, 127, 1, 5),
        6 => (0, 127, 0, 127),
        7 => (80, 127, 0, 127),
        _ => {
            return None;
        },
    };
    params.feedback = feedback;
    params.delay = delay;
    params.rate = rate;
    params.depth = depth;
    Some(macro_num)
}

/// Applies a delay macro. While the delay is locked nothing changes. A known macro
/// sets every parameter and is reported. An unknown one has still set the level to
/// 64, the pre-lowpass and the send to reverb to 0, the left and right levels to 0
/// and the centre level to 127, and is not reported.
pub fn set_delay_macro(params: &mut DelayParams, macro_num: u8, locked: bool) -> (r: Option<u8>)
    ensures
        locked ==> *final(params) == *old(params) && r is None,
        !locked ==> match spec_delay_macro(macro_num) {
            Some(p) => *final(params) == p && r == Some(macro_num),
            None => *final(params) == (DelayParams {
                level: 64,
                pre_lowpass: 0,
                send_level_to_reverb: 0,
                level_right: 0,
                level_left: 0,
                level_center: 127,
                ..*old(params)
            }) && r is None,
        },
{
    if locked {
        return None;
    }
    params.level = 64;
    params.pre_lowpass = 0;
    params.send_level_to_reverb = 0;
    params.level_right = 0;
    params.level_left = 0;
    params.level_center = 127;
    let t: (u8, u8, u8, u8, u8, u8, u8, u8) = match macro_num {
        0 => (97, 1, 1, 127, 0, 0, 80, 0),
        1 => (106, 1, 1, 127, 0, 0, 80, 0),
        2 => (115, 1, 1, 127, 0, 0, 72, 0),
        3 => (83, 1, 1, 127, 0, 0, 72, 0),
        4 => (105, 12, 24, 0, 125, 60, 74, 0),
        5 => (109, 12, 24, 0, 125, 60, 71, 0),
        6 => (115, 12, 24, 0, 120, 64, 73, 0),
        7 => (93, 12, 24, 0, 120, 64, 72, 0),
        8 => (109, 12, 24, 0, 114, 60, 61, 36),
        9 => (110, 21, 32, 97, 127, 67, 40, 0),
        _ => {
            return None;
        },
    };
    params.time_center = t.0;
    params.time_ratio_left = t.1;
    params.time_ratio_right = t.2;
    params.level_center = t.3;
    params.level_left = t.4;
    params.level_right = t.5;
    params.feedback = t.6;
    params.send_level_to_reverb = t.7;
    Some(macro_num)
}

} // verus!
