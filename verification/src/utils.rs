//! Clamping and the short names of the interpolation.

use vstd::prelude::*;
use crate::fixed::clamped;
use crate::lerp::{lerp, lerp_pair, one_dimensional, two_dimensional};

verus! {

/// Holds a 64-bit fixed-point `value` to the range from `min` to `max`.
pub fn clamp_f64(value: i64, min: i64, max: i64) -> (out: i64)
    ensures
        out == clamped(value as int, min as int, max as int),
{
    if value < min {
        min
    } else if value > max {
        max
    } else {
        value
    }
}

/// Interpolates on both axes: see [`lerp_pair`].
pub fn lerp_2d(alpha: i64, position: (i64, i64), target: (i64, i64)) -> (out: (i64, i64))
    ensures
        (out.0 as int, out.1 as int) == lerp_pair(alpha as int, position, target),
{
    two_dimensional(alpha, position, target)
}

/// Interpolates on one axis: see [`lerp`].
pub fn lerp_1d(alpha: i64, position: i64, target: i64) -> (out: i64)
    ensures
        out == lerp(alpha as int, position as int, target as int),
{
    one_dimensional(alpha, position, target)
}

} // verus!
