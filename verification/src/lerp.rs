//! Linear interpolation, on one axis and on two.

use vstd::prelude::*;
use crate::fixed::{saturate, saturated, trunc_div, ONE};

verus! {

/// The point that lies the fraction `alpha` of the way from `from` to `to`:
/// `from + alpha * (to - from)`, the step rounded toward zero and the sum
/// saturated. `alpha` is a grid quantity and need not lie between 0 and 1.
pub open spec fn lerp(alpha: int, from: int, to: int) -> int {
    saturated(from + trunc_div(alpha * (to - from), ONE as int))
}

/// [`lerp`] on each axis of a pair.
pub open spec fn lerp_pair(alpha: int, from: (i64, i64), to: (i64, i64)) -> (int, int) {
    (lerp(alpha, from.0 as int, to.0 as int), lerp(alpha, from.1 as int, to.1 as int))
}

/// Interpolating with `alpha` zero stays at the start, with `alpha` one
/// arrives at the end.
pub proof fn lemma_lerp_ends(from: int, to: int)
    requires
        i64::MIN <= from <= i64::MAX,
        i64::MIN <= to <= i64::MAX,
    ensures
        lerp(0, from, to) == from,
        lerp(ONE as int, from, to) == to,
{
    assert(0 * (to - from) == 0);
    assert(trunc_div((ONE as int) * (to - from), ONE as int) == to - from);
}

/// With `alpha` between zero and one the point lies between the two ends.
pub proof fn lemma_lerp_between(alpha: int, from: int, to: int)
    requires
        0 <= alpha <= ONE,
        i64::MIN <= from <= i64::MAX,
        i64::MIN <= to <= i64::MAX,
    ensures
        from <= to ==> from <= lerp(alpha, from, to) <= to,
        to <= from ==> to <= lerp(alpha, from, to) <= from,
{
    let span = to - from;
    let step = trunc_div(alpha * span, ONE as int);
    if span >= 0 {
        assert(0 <= alpha * span <= 1000 * span) by (nonlinear_arith)
            requires
                0 <= alpha <= 1000,
                span >= 0,
        ;
        assert(0 <= step <= span);
    } else {
        assert(0 <= -(alpha * span) <= 1000 * (-span)) by (nonlinear_arith)
            requires
                0 <= alpha <= 1000,
                span < 0,
        ;
        assert(span <= step <= 0);
    }
}

/// Interpolates between `position` and `target` on one axis.
pub fn one_dimensional(alpha: i64, position: i64, target: i64) -> (out: i64)
    ensures
        out == lerp(alpha as int, position as int, target as int),
{
    let span: i128 = (target as i128) - (position as i128);
    assert(-0x7fff_ffff_ffff_ffff_ffff_ffff_ffff_ffff <= (alpha as int) * (span as int)
        <= 0x7fff_ffff_ffff_ffff_ffff_ffff_ffff_ffff) by (nonlinear_arith)
        requires
            -0x8000_0000_0000_0000 <= alpha <= 0x7fff_ffff_ffff_ffff,
            -0xffff_ffff_ffff_ffff <= span <= 0xffff_ffff_ffff_ffff,
    ;
    let step: i128 = ((alpha as i128) * span) / (ONE as i128);
    saturate((position as i128) + step)
}

/// Interpolates between `position` and `target` on both axes at once.
pub fn two_dimensional(alpha: i64, position: (i64, i64), target: (i64, i64)) -> (out: (i64, i64))
    ensures
        (out.0 as int, out.1 as int) == lerp_pair(alpha as int, position, target),
{
    (
        one_dimensional(alpha, position.0, target.0),
        one_dimensional(alpha, position.1, target.1),
    )
}

} // verus!
