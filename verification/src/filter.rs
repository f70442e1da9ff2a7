//! The two noise-filtering passes.
//!
//! Both are single left-to-right folds over the annotated points,
//! carrying one cursor: the index of the last survivor.  The first pass
//! keeps an interior point only where the elevation trend on both of
//! its sides points the same way relative to the last survivor; the
//! second demotes a survivor whose grade relative to the last survivor
//! is implausibly steep.

use vstd::math::abs;
use vstd::prelude::*;

use crate::geodesy::hav;
use crate::track::{elevations_bounded, TrackPoint, MAX_ELEVATION_CM};

verus! {

// --- The direction-persistence pass ---------------------------------

/// The direction-persistence test: the elevation trend from the last
/// survivor to point `i` and the trend from `i` to `i + 1` point the
/// same way.
pub open spec fn stage1_keeps(s: Seq<TrackPoint>, last: int, i: int) -> bool {
    (s[i].elevation_cm - s[last].elevation_cm) * (s[i + 1].elevation_cm - s[i].elevation_cm) > 0
}

/// Index of the last survivor after the first pass has processed the
/// interior points `1..=i`.
pub open spec fn stage1_cursor(s: Seq<TrackPoint>, i: int) -> int
    decreases i,
{
    if i < 1 {
        0
    } else if stage1_keeps(s, stage1_cursor(s, i - 1), i) {
        i
    } else {
        stage1_cursor(s, i - 1)
    }
}

/// Whether interior point `i` survives the first pass.
pub open spec fn stage1_survives(s: Seq<TrackPoint>, i: int) -> bool {
    stage1_keeps(s, stage1_cursor(s, i - 1), i)
}

/// How many interior points of `1..=i` survive the first pass.
pub open spec fn stage1_interior_count(s: Seq<TrackPoint>, i: int) -> int
    decreases i,
{
    if i < 1 {
        0
    } else {
        stage1_interior_count(s, i - 1) + if stage1_survives(s, i) {
            1int
        } else {
            0int
        }
    }
}

/// Marks the interior points that pass the direction-persistence test,
/// and forces the last point to survive.  Returns the new points and
/// the survivor count, which counts the surviving interior points plus
/// the forced last point.
pub fn stage1_filter(points: Vec<TrackPoint>) -> (r: (Vec<TrackPoint>, usize))
    requires
        points.len() >= 2,
        elevations_bounded(points@),
        forall|j: int| 0 <= j < points.len() ==> !(#[trigger] points[j]).survived,
    ensures
        r.0.len() == points.len(),
        forall|j: int| 0 <= j < points.len() ==> {
            &&& (#[trigger] r.0[j]).position == points[j].position
            &&& r.0[j].elevation_cm == points[j].elevation_cm
            &&& r.0[j].distance_cm == points[j].distance_cm
            &&& r.0[j].is_extremum == points[j].is_extremum
        },
        forall|j: int|
            1 <= j <= points.len() - 2 ==> (#[trigger] r.0[j]).survived == stage1_survives(
                points@,
                j,
            ),
        !r.0[0].survived,
        r.0[points.len() - 1].survived,
        r.1 == stage1_interior_count(points@, points.len() - 2) + 1,
{
    let ghost orig = points@;
    let mut out = points;
    let n = out.len();
    let mut last: usize = 0;
    let mut count: usize = 0;
    let mut i: usize = 1;
    while i < n - 1
        invariant
            1 <= i <= n - 1,
            n == out.len(),
            n == orig.len(),
            2 <= n,
            elevations_bounded(orig),
            forall|j: int| 0 <= j < n ==> !(#[trigger] orig[j]).survived,
            forall|j: int| 0 <= j < n ==> {
                &&& (#[trigger] out[j]).position == orig[j].position
                &&& out[j].elevation_cm == orig[j].elevation_cm
                &&& out[j].distance_cm == orig[j].distance_cm
                &&& out[j].is_extremum == orig[j].is_extremum
            },
            forall|j: int|
                1 <= j < i ==> (#[trigger] out[j]).survived == stage1_survives(orig, j),
            forall|j: int| (j == 0 || i <= j < n) ==> !(#[trigger] out[j]).survived,
            last == stage1_cursor(orig, i - 1),
            0 <= last < i,
            count == stage1_interior_count(orig, i - 1),
            count < i,
        decreases n - 1 - i,
    {
        let rise_in = out[i].elevation_cm - out[last].elevation_cm;
        let rise_out = out[i + 1].elevation_cm - out[i].elevation_cm;
        let same_direction = (rise_in > 0 && rise_out > 0) || (rise_in < 0 && rise_out < 0);
        proof {
            assert(((rise_in > 0 && rise_out > 0) || (rise_in < 0 && rise_out < 0)) == (
            rise_in as int * rise_out as int > 0)) by (nonlinear_arith);
        }
        if same_direction {
            let mut p = out[i];
            p.survived = true;
            out.set(i, p);
            last = i;
            count = count + 1;
        }
        i = i + 1;
    }
    let mut p = out[n - 1];
    p.survived = true;
    out.set(n - 1, p);
    count = count + 1;
    (out, count)
}

// --- The slope pass --------------------------------------------------

/// The slope test: the grade from the last survivor to point `i`, in
/// percent, is within the limit.  With both sides scaled by the
/// distance this is `100 * |rise| <= limit * distance`; a point at zero
/// distance from the last survivor passes only with zero rise.
pub open spec fn stage2_keeps(s: Seq<TrackPoint>, last: int, i: int, limit: int) -> bool {
    100 * abs(s[i].elevation_cm - s[last].elevation_cm) <= limit * hav(
        s[i].position,
        s[last].position,
    )
}

/// Index of the last survivor after the slope pass has processed the
/// interior points `1..=i`.
pub open spec fn stage2_cursor(s: Seq<TrackPoint>, i: int, limit: int) -> int
    decreases i,
{
    if i < 1 {
        0
    } else {
        let prev = stage2_cursor(s, i - 1, limit);
        if s[i].survived && stage2_keeps(s, prev, i, limit) {
            i
        } else {
            prev
        }
    }
}

/// Whether interior point `i` stays survived through the slope pass.
pub open spec fn stage2_survives(s: Seq<TrackPoint>, i: int, limit: int) -> bool {
    s[i].survived && stage2_keeps(s, stage2_cursor(s, i - 1, limit), i, limit)
}

/// How many interior points of `1..=i` stay survived through the slope
/// pass.
pub open spec fn stage2_interior_count(s: Seq<TrackPoint>, i: int, limit: int) -> int
    decreases i,
{
    if i < 1 {
        0
    } else {
        stage2_interior_count(s, i - 1, limit) + if stage2_survives(s, i, limit) {
            1int
        } else {
            0int
        }
    }
}

/// Re-walks the interior survivors of the first pass and demotes each
/// whose grade relative to the last survivor exceeds `limit` percent.
/// Returns the new points and the count of interior points that stayed
/// survived.
pub fn stage2_filter(points: Vec<TrackPoint>, limit: u64) -> (r: (Vec<TrackPoint>, usize))
    requires
        points.len() >= 2,
        elevations_bounded(points@),
    ensures
        r.0.len() == points.len(),
        forall|j: int| 0 <= j < points.len() ==> {
            &&& (#[trigger] r.0[j]).position == points[j].position
            &&& r.0[j].elevation_cm == points[j].elevation_cm
            &&& r.0[j].distance_cm == points[j].distance_cm
            &&& r.0[j].is_extremum == points[j].is_extremum
        },
        forall|j: int|
            1 <= j <= points.len() - 2 ==> (#[trigger] r.0[j]).survived == stage2_survives(
                points@,
                j,
                limit as int,
            ),
        r.0[0].survived == points[0].survived,
        r.0[points.len() - 1].survived == points[points.len() - 1].survived,
        r.1 == stage2_interior_count(points@, points.len() - 2, limit as int),
{
    let ghost orig = points@;
    let mut out = points;
    let n = out.len();
    let mut last: usize = 0;
    let mut count: usize = 0;
    let mut i: usize = 1;
    while i < n - 1
        invariant
            1 <= i <= n - 1,
            n == out.len(),
            n == orig.len(),
            2 <= n,
            elevations_bounded(orig),
            forall|j: int| 0 <= j < n ==> {
                &&& (#[trigger] out[j]).position == orig[j].position
                &&& out[j].elevation_cm == orig[j].elevation_cm
                &&& out[j].distance_cm == orig[j].distance_cm
                &&& out[j].is_extremum == orig[j].is_extremum
            },
            forall|j: int|
                1 <= j < i ==> (#[trigger] out[j]).survived == stage2_survives(
                    orig,
                    j,
                    limit as int,
                ),
            forall|j: int| (j == 0 || i <= j < n) ==> (#[trigger] out[j]).survived == orig[j].survived,
            last == stage2_cursor(orig, i - 1, limit as int),
            0 <= last < i,
            count == stage2_interior_count(orig, i - 1, limit as int),
            count < i,
        decreases n - 1 - i,
    {
        if out[i].survived {
            let rise = out[i].elevation_cm - out[last].elevation_cm;
            let rise_mag: u64 = if rise >= 0 {
                rise as u64
            } else {
                (-rise) as u64
            };
            let dist = crate::geodesy::haversine_distance_cm(&out[i].position, &out[last].position);
            proof {
                crate::arith::lemma_mul_le(limit as int, u64::MAX as int, dist as int, u64::MAX as int);
            }
            let keeps = 100u128 * (rise_mag as u128) <= (limit as u128) * (dist as u128);
            proof {
                assert(keeps == stage2_keeps(orig, last as int, i as int, limit as int));
            }
            if keeps {
                last = i;
                count = count + 1;
            } else {
                let mut p = out[i];
                p.survived = false;
                out.set(i, p);
            }
        }
        i = i + 1;
    }
    (out, count)
}

// --- What holds of adjacent slope-pass survivors ---------------------

/// The slope-pass cursor stays in range, points at a survivor once it
/// has moved, and skips no survivor.
pub proof fn lemma_stage2_cursor_shape(s: Seq<TrackPoint>, i: int, limit: int)
    ensures
        0 <= stage2_cursor(s, i, limit),
        i >= 0 ==> stage2_cursor(s, i, limit) <= i,
        stage2_cursor(s, i, limit) >= 1 ==> stage2_survives(s, stage2_cursor(s, i, limit), limit),
        forall|k: int|
            stage2_cursor(s, i, limit) < k <= i ==> !stage2_survives(s, k, limit),
    decreases i,
{
    if i >= 1 {
        lemma_stage2_cursor_shape(s, i - 1, limit);
    }
}

/// No two adjacent slope-pass survivors, other than the forced
/// endpoints, break the grade limit: an interior point `j` that stays
/// survived satisfies the slope test against the nearest surviving
/// point before it (index 0 where no interior survivor precedes it),
/// and no survivor lies strictly between the two.
pub proof fn lemma_adjacent_survivors_within_slope(s: Seq<TrackPoint>, j: int, limit: int)
    requires
        1 <= j,
        stage2_survives(s, j, limit),
    ensures
        ({
            let i = stage2_cursor(s, j - 1, limit);
            &&& 0 <= i < j
            &&& 100 * abs(s[j].elevation_cm - s[i].elevation_cm) <= limit * hav(
                s[j].position,
                s[i].position,
            )
            &&& forall|k: int| i < k < j ==> !stage2_survives(s, k, limit)
        }),
{
    lemma_stage2_cursor_shape(s, j - 1, limit);
}

} // verus!
