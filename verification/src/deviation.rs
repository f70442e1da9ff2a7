//! Point-to-chord deviation in the (cumulative profile distance,
//! elevation) plane, in exact integer arithmetic.
//!
//! The deviation of point `i` from the chord `f`–`t` is the distance to
//! the clamped projection onto the chord: to the nearer endpoint where
//! the projection parameter falls outside `[0, 1)`, else to the chord
//! line itself.  Its square is the rational `num / den` with `den` the
//! squared chord length in the projected case and 1 otherwise, so
//! comparisons of deviations reduce to integer cross-multiplication.
//! With profile distances within 2^31 and elevations within 2^24 every
//! product fits comfortably in an `i128`.

use vstd::prelude::*;

use crate::arith::{lemma_mul_bounds, lemma_mul_le, lemma_mul_strict_cancel, lemma_sq_nonneg};
use crate::track::{elevations_bounded, TrackPoint, MAX_ELEVATION_CM, MAX_PROFILE_SPAN_CM};

verus! {

/// Every profile distance is within the span limit.
pub open spec fn xs_bounded(xs: Seq<u64>) -> bool {
    forall|i: int| 0 <= i < xs.len() ==> #[trigger] xs[i] <= MAX_PROFILE_SPAN_CM
}

/// Every elevation is within the elevation limit.
pub open spec fn ys_bounded(ys: Seq<i64>) -> bool {
    forall|i: int| 0 <= i < ys.len() ==> -MAX_ELEVATION_CM <= #[trigger] ys[i] <= MAX_ELEVATION_CM
}

/// Squared length of the chord from `f` to `t`.
pub open spec fn chord_sq(ys: Seq<i64>, xs: Seq<u64>, f: int, t: int) -> int {
    let dx = xs[t] - xs[f];
    let dy = ys[t] - ys[f];
    dx * dx + dy * dy
}

/// Scalar product of the chord with the vector from `f` to `i`: the
/// projection parameter of point `i`, scaled by the squared chord
/// length.
pub open spec fn chord_proj(ys: Seq<i64>, xs: Seq<u64>, f: int, t: int, i: int) -> int {
    let dx = xs[t] - xs[f];
    let dy = ys[t] - ys[f];
    dx * (xs[i] - xs[f]) + dy * (ys[i] - ys[f])
}

/// Whether point `i` projects onto the chord proper (parameter in
/// `[0, 1)`), rather than being clamped to an endpoint.
pub open spec fn dev_projected(ys: Seq<i64>, xs: Seq<u64>, f: int, t: int, i: int) -> bool {
    0 <= chord_proj(ys, xs, f, t, i) < chord_sq(ys, xs, f, t)
}

/// Numerator of the squared deviation of point `i` from the chord
/// `f`–`t`: the squared distance to the nearer endpoint where clamped,
/// else the squared cross product (squared area), to be divided by the
/// squared chord length.
pub open spec fn dev_num(ys: Seq<i64>, xs: Seq<u64>, f: int, t: int, i: int) -> int {
    let dx = xs[t] - xs[f];
    let dy = ys[t] - ys[f];
    let px = xs[i] - xs[f];
    let py = ys[i] - ys[f];
    if chord_proj(ys, xs, f, t, i) < 0 {
        px * px + py * py
    } else if !dev_projected(ys, xs, f, t, i) {
        let ex = xs[i] - xs[t];
        let ey = ys[i] - ys[t];
        ex * ex + ey * ey
    } else {
        let cross = dx * py - dy * px;
        cross * cross
    }
}

/// Denominator of the squared deviation of point `i`.
pub open spec fn dev_den(ys: Seq<i64>, xs: Seq<u64>, f: int, t: int, i: int) -> int {
    if dev_projected(ys, xs, f, t, i) {
        chord_sq(ys, xs, f, t)
    } else {
        1
    }
}

/// The deviation of point `i` exceeds the threshold:
/// `num / den > thr^2`, cross-multiplied.
pub open spec fn dev_exceeds(ys: Seq<i64>, xs: Seq<u64>, f: int, t: int, i: int, thr: int) -> bool {
    dev_num(ys, xs, f, t, i) > thr * thr * dev_den(ys, xs, f, t, i)
}

/// The deviation of point `i` strictly exceeds that of point `j`:
/// `num_i / den_i > num_j / den_j`, cross-multiplied.
pub open spec fn dev_above(ys: Seq<i64>, xs: Seq<u64>, f: int, t: int, i: int, j: int) -> bool {
    dev_num(ys, xs, f, t, i) * dev_den(ys, xs, f, t, j) > dev_num(ys, xs, f, t, j) * dev_den(
        ys,
        xs,
        f,
        t,
        i,
    )
}

/// The denominator a measured deviation stands over: the squared chord
/// length where the point projected onto the chord, 1 otherwise.
pub open spec fn den_sel(projected: bool, m: int) -> int {
    if projected {
        m
    } else {
        1
    }
}

/// The elevations of a point sequence, the y coordinates of the plane.
pub open spec fn elevs(s: Seq<TrackPoint>) -> Seq<i64> {
    Seq::new(s.len(), |i: int| s[i].elevation_cm)
}

/// Squared chord length, computed exactly.
pub(crate) fn chord_sq_i128(profile: &Vec<TrackPoint>, xs: &Vec<u64>, f: usize, t: usize) -> (m:
    i128)
    requires
        profile.len() == xs.len(),
        f < profile.len(),
        t < profile.len(),
        elevations_bounded(profile@),
        xs_bounded(xs@),
    ensures
        m == chord_sq(elevs(profile@), xs@, f as int, t as int),
        0 <= m <= 0x8000_0000_0000_0000,
{
    let dx: i128 = xs[t] as i128 - xs[f] as i128;
    let dy: i128 = profile[t].elevation_cm as i128 - profile[f].elevation_cm as i128;
    proof {
        lemma_mul_bounds(dx as int, 0x8000_0000, dx as int, 0x8000_0000);
        lemma_mul_bounds(dy as int, 0x200_0000, dy as int, 0x200_0000);
        lemma_sq_nonneg(dx as int);
        lemma_sq_nonneg(dy as int);
    }
    dx * dx + dy * dy
}

/// Measures the squared deviation of point `i` from the chord `f`–`t`
/// as the pair (numerator, projected): the squared deviation is the
/// numerator over the squared chord length where projected, over 1
/// otherwise.
pub(crate) fn dev_measure(profile: &Vec<TrackPoint>, xs: &Vec<u64>, f: usize, t: usize, i: usize)
    -> (r: (i128, bool))
    requires
        profile.len() == xs.len(),
        f < profile.len(),
        t < profile.len(),
        i < profile.len(),
        elevations_bounded(profile@),
        xs_bounded(xs@),
    ensures
        r.0 == dev_num(elevs(profile@), xs@, f as int, t as int, i as int),
        r.1 == dev_projected(elevs(profile@), xs@, f as int, t as int, i as int),
        0 <= r.0,
        r.1 ==> r.0 <= 0x4_0000_0000_0000_0000_0000_0000_0000,
        !r.1 ==> r.0 <= 0x8000_0000_0000_0000,
{
    let dx: i128 = xs[t] as i128 - xs[f] as i128;
    let dy: i128 = profile[t].elevation_cm as i128 - profile[f].elevation_cm as i128;
    let px: i128 = xs[i] as i128 - xs[f] as i128;
    let py: i128 = profile[i].elevation_cm as i128 - profile[f].elevation_cm as i128;
    proof {
        lemma_mul_bounds(dx as int, 0x8000_0000, dx as int, 0x8000_0000);
        lemma_mul_bounds(dy as int, 0x200_0000, dy as int, 0x200_0000);
        lemma_mul_bounds(dx as int, 0x8000_0000, px as int, 0x8000_0000);
        lemma_mul_bounds(dy as int, 0x200_0000, py as int, 0x200_0000);
        lemma_sq_nonneg(dx as int);
        lemma_sq_nonneg(dy as int);
    }
    let m: i128 = dx * dx + dy * dy;
    let pr: i128 = dx * px + dy * py;
    if pr < 0 {
        proof {
            lemma_mul_bounds(px as int, 0x8000_0000, px as int, 0x8000_0000);
            lemma_mul_bounds(py as int, 0x200_0000, py as int, 0x200_0000);
            lemma_sq_nonneg(px as int);
            lemma_sq_nonneg(py as int);
        }
        (px * px + py * py, false)
    } else if pr >= m {
        let ex: i128 = xs[i] as i128 - xs[t] as i128;
        let ey: i128 = profile[i].elevation_cm as i128 - profile[t].elevation_cm as i128;
        proof {
            lemma_mul_bounds(ex as int, 0x8000_0000, ex as int, 0x8000_0000);
            lemma_mul_bounds(ey as int, 0x200_0000, ey as int, 0x200_0000);
            lemma_sq_nonneg(ex as int);
            lemma_sq_nonneg(ey as int);
        }
        (ex * ex + ey * ey, false)
    } else {
        proof {
            lemma_mul_bounds(dx as int, 0x8000_0000, py as int, 0x200_0000);
            lemma_mul_bounds(dy as int, 0x200_0000, px as int, 0x8000_0000);
        }
        let cross: i128 = dx * py - dy * px;
        proof {
            lemma_mul_bounds(cross as int, 0x200_0000_0000_0000, cross as int, 0x200_0000_0000_0000);
            lemma_sq_nonneg(cross as int);
        }
        (cross * cross, true)
    }
}

/// Decides `num_a / den_a > num_b / den_b` for two deviations measured
/// against the same chord, whose squared length is `m`.
pub(crate) fn dev_above_exec(
    a_num: i128,
    a_proj: bool,
    b_num: i128,
    b_proj: bool,
    m: i128,
) -> (r: bool)
    requires
        0 <= a_num,
        0 <= b_num,
        a_proj ==> a_num <= 0x4_0000_0000_0000_0000_0000_0000_0000,
        !a_proj ==> a_num <= 0x8000_0000_0000_0000,
        b_proj ==> b_num <= 0x4_0000_0000_0000_0000_0000_0000_0000,
        !b_proj ==> b_num <= 0x8000_0000_0000_0000,
        0 <= m <= 0x8000_0000_0000_0000,
        a_proj || b_proj ==> m >= 1,
    ensures
        r == (a_num * den_sel(b_proj, m as int) > b_num * den_sel(a_proj, m as int)),
{
    if a_proj == b_proj {
        proof {
            if a_proj {
                lemma_mul_strict_cancel(a_num as int, b_num as int, m as int);
            }
        }
        a_num > b_num
    } else if a_proj {
        proof {
            lemma_mul_le(b_num as int, 0x8000_0000_0000_0000, m as int, 0x8000_0000_0000_0000);
        }
        a_num > b_num * m
    } else {
        proof {
            lemma_mul_le(a_num as int, 0x8000_0000_0000_0000, m as int, 0x8000_0000_0000_0000);
        }
        a_num * m > b_num
    }
}

/// Decides whether a measured deviation exceeds the threshold:
/// `num / den > thr^2`.
pub(crate) fn dev_exceeds_exec(a_num: i128, a_proj: bool, m: i128, thr: u64) -> (r: bool)
    requires
        0 <= a_num,
        a_proj ==> a_num <= 0x4_0000_0000_0000_0000_0000_0000_0000,
        !a_proj ==> a_num <= 0x8000_0000_0000_0000,
        0 <= m <= 0x8000_0000_0000_0000,
        a_proj ==> m >= 1,
        thr <= MAX_PROFILE_SPAN_CM,
    ensures
        r == (a_num > thr * thr * den_sel(a_proj, m as int)),
{
    proof {
        lemma_mul_le(thr as int, 0x8000_0000, thr as int, 0x8000_0000);
    }
    let t2: i128 = (thr as i128) * (thr as i128);
    proof {
        assert(t2 == thr * thr);
    }
    if a_proj {
        proof {
            lemma_mul_le(t2 as int, 0x4000_0000_0000_0000, m as int, 0x8000_0000_0000_0000);
            assert(t2 * m == thr * thr * den_sel(a_proj, m as int));
        }
        a_num > t2 * m
    } else {
        proof {
            assert(thr * thr * den_sel(a_proj, m as int) == t2) by (nonlinear_arith)
                requires
                    t2 == thr * thr,
                    !a_proj,
            ;
        }
        a_num > t2
    }
}

} // verus!
