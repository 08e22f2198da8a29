//! The integer part of the portamento time curve: which segment of the spline a
//! portamento time (controller 5) falls in. The spline itself is evaluated in
//! floating point by the host.
use vstd::prelude::*;

verus! {

/// The spline segment of a portamento time: the number of segment thresholds
/// (2, 4, 8, 16, 32, 64, 80, 96, 112, 120, 124) below it.
pub open spec fn spec_porta_segment(cc: u8) -> usize {
    if cc <= 2 { 0 }
    else if cc <= 4 { 1 }
    else if cc <= 8 { 2 }
    else if cc <= 16 { 3 }
    else if cc <= 32 { 4 }
    else if cc <= 64 { 5 }
    else if cc <= 80 { 6 }
    else if cc <= 96 { 7 }
    else if cc <= 112 { 8 }
    else if cc <= 120 { 9 }
    else if cc <= 124 { 10 }
    else { 11 }
}

/// The spline segment of a portamento time (see [`spec_porta_segment`]).
pub fn porta_segment(cc: u8) -> (r: usize)
    ensures
        r == spec_porta_segment(cc),
        r < 12,
{
    let thresholds: [u8; 11] = [2, 4, 8, 16, 32, 64, 80, 96, 112, 120, 124];
    let mut s: usize = 0;
    while s < 11 && thresholds[s] < cc
        invariant
            s <= 11,
            thresholds@ == seq![2u8, 4, 8, 16, 32, 64, 80, 96, 112, 120, 124],
            forall|j: int| 0 <= j < s ==> thresholds@[j] < cc,
        decreases 11 - s,
    {
        s = s + 1;
    }
    s
}

} // verus!
