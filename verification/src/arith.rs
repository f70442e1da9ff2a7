//! Small nonlinear arithmetic facts the fixed-point pipeline leans on.

use vstd::prelude::*;

verus! {

/// A product of nonnegative values is bounded by the product of bounds.
pub proof fn lemma_mul_le(a: int, amax: int, b: int, bmax: int)
    by (nonlinear_arith)
    requires
        0 <= a <= amax,
        0 <= b <= bmax,
    ensures
        a * b <= amax * bmax,
{
}

/// A product of values bounded in magnitude is bounded in magnitude by
/// the product of the bounds.
pub proof fn lemma_mul_bounds(a: int, amax: int, b: int, bmax: int)
    by (nonlinear_arith)
    requires
        -amax <= a <= amax,
        -bmax <= b <= bmax,
        0 <= amax,
        0 <= bmax,
    ensures
        -(amax * bmax) <= a * b <= amax * bmax,
{
}

/// A square is never negative.
pub proof fn lemma_sq_nonneg(a: int)
    by (nonlinear_arith)
    ensures
        a * a >= 0,
{
}

/// Multiplying both sides of a strict inequality by a positive value
/// keeps it strict, and conversely.
pub proof fn lemma_mul_strict_cancel(a: int, b: int, m: int)
    by (nonlinear_arith)
    requires
        m > 0,
    ensures
        a > b <==> a * m > b * m,
{
}

} // verus!
