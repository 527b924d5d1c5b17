//! The fixed-point grid that every quantity of the crate lives on.

use vstd::prelude::*;

verus! {

/// One whole unit on the grid: a quantity `q` is held as the integer
/// `q * ONE`, so the grid resolves thousandths.
pub const ONE: i64 = 1000;

/// `value` held to the range from `min` to `max`. Where the range is empty
/// the lower bound is tested first.
pub open spec fn clamped(value: int, min: int, max: int) -> int {
    if value < min {
        min
    } else if value > max {
        max
    } else {
        value
    }
}

/// `value` held to what an `i64` can carry.
pub open spec fn saturated(value: int) -> int {
    clamped(value, i64::MIN as int, i64::MAX as int)
}

/// The quotient of `a` by a positive `b`, rounded toward zero.
pub open spec fn trunc_div(a: int, b: int) -> int
    recommends
        b > 0,
{
    if a >= 0 {
        a / b
    } else {
        -((-a) / b)
    }
}

/// The product of two grid quantities, back on the grid and rounded toward
/// zero.
pub open spec fn scaled(a: int, b: int) -> int {
    trunc_div(a * b, ONE as int)
}

/// Brings a wide intermediate result back into an `i64`, saturating at the
/// ends of its range.
pub fn saturate(value: i128) -> (out: i64)
    ensures
        out == saturated(value as int),
{
    if value < i64::MIN as i128 {
        i64::MIN
    } else if value > i64::MAX as i128 {
        i64::MAX
    } else {
        value as i64
    }
}

} // verus!
