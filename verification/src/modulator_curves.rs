//! Sizes of the precomputed modulator curve tables. The curves themselves are
//! floating-point tables built and read by the host.
use vstd::prelude::*;

verus! {

/// The length of the precomputed curve tables (one more entry is stored).
pub const MODULATOR_RESOLUTION: usize = 16384;

/// Number of curve types: linear, concave, convex, switch.
pub const MOD_CURVE_TYPES_AMOUNT: usize = 4;

/// Number of source transforms: unipolar or bipolar, positive or negative.
pub const MOD_SOURCE_TRANSFORM_POSSIBILITIES: usize = 4;

} // verus!
