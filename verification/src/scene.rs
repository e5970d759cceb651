//! What the author of the stock scene decides for each small sphere.

use crate::scalar::Scalar;
use vstd::prelude::*;

verus! {

/// The pattern of `0.8`: draws below it make a diffuse sphere.
pub const DIFFUSE_SHARE_BITS: u64 = 0x3fe9_9999_9999_999a;

/// The pattern of `0.95`: draws below it, and not below `0.8`, make a metal
/// sphere.
pub const METAL_SHARE_BITS: u64 = 0x3fee_6666_6666_6666;

/// The pattern of `0.9`: a small sphere whose centre is no farther than this
/// from the reserved place is left out.
pub const CLEARANCE_BITS: u64 = 0x3fec_cccc_cccc_cccd;

/// The material of a small sphere.
#[derive(Clone, Copy, Debug, PartialEq, Eq, Structural)]
pub enum Finish {
    Diffuse,
    Metal,
    Glass,
}

/// The material that a draw from `[0, 1)` selects.
pub open spec fn finish_of(draw: Scalar) -> Finish {
    if draw.lt_spec(Scalar::of(DIFFUSE_SHARE_BITS)) {
        Finish::Diffuse
    } else if draw.lt_spec(Scalar::of(METAL_SHARE_BITS)) {
        Finish::Metal
    } else {
        Finish::Glass
    }
}

/// Selects the material of a small sphere: diffuse for four draws in five,
/// metal for three in twenty, glass for the rest.
pub fn choose_finish(draw: Scalar) -> (finish: Finish)
    ensures
        finish == finish_of(draw),
{
    if draw < Scalar::from_bits(DIFFUSE_SHARE_BITS) {
        Finish::Diffuse
    } else if draw < Scalar::from_bits(METAL_SHARE_BITS) {
        Finish::Metal
    } else {
        Finish::Glass
    }
}

/// Whether a small sphere at this distance from the reserved place is kept.
pub fn keeps_clear(distance: Scalar) -> (kept: bool)
    ensures
        kept == distance.gt_spec(Scalar::of(CLEARANCE_BITS)),
{
    distance > Scalar::from_bits(CLEARANCE_BITS)
}

} // verus!
