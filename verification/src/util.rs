//! What the samplers decide before they draw.

use crate::scalar::Scalar;
use vstd::prelude::*;

verus! {

/// The pattern of `0.0000001`: a ball or a disk with a radius no larger than
/// this, in magnitude, is a point.
pub const POINT_RADIUS_BITS: u64 = 0x3e7a_d7f2_9abc_af48;

/// The radius is so small that every sample is the centre.
pub open spec fn is_point_spec(radius: Scalar) -> bool {
    radius.abs_spec().le_spec(Scalar::of(POINT_RADIUS_BITS))
}

/// Whether a sample in a ball or on a disk of this radius is the centre
/// itself, and no number needs to be drawn for it.
pub fn is_point(radius: Scalar) -> (r: bool)
    ensures
        r == is_point_spec(radius),
{
    radius.abs() <= Scalar::from_bits(POINT_RADIUS_BITS)
}

} // verus!
