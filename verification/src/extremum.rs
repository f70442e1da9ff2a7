//! The extremum selector: recursive maximum-deviation simplification
//! of the profile, read as a curve in the (cumulative profile distance,
//! elevation) plane.  Both endpoints are always marked; inside a span
//! the interior point of greatest deviation from the chord is marked
//! and the two half-spans are simplified independently, stopping where
//! no deviation exceeds the threshold.

use vstd::prelude::*;

use crate::deviation::{
    chord_sq_i128, den_sel, dev_above, dev_above_exec, dev_exceeds, dev_exceeds_exec, dev_measure,
    dev_projected, elevs, xs_bounded,
};
use crate::track::{elevations_bounded, TrackPoint, MAX_PROFILE_SPAN_CM};

verus! {

/// The running result of the deviation scan over interior points
/// `f + 1 ..= i` of the span `f`–`t`: the first index of maximum
/// deviation among those exceeding the threshold, if any.  A later
/// point displaces the running best only by strictly greater deviation.
pub open spec fn scan_best(ys: Seq<i64>, xs: Seq<u64>, f: int, t: int, i: int, thr: int) -> Option<
    int,
>
    decreases i - f,
{
    if i <= f {
        None
    } else {
        let prev = scan_best(ys, xs, f, t, i - 1, thr);
        let better = match prev {
            None => dev_exceeds(ys, xs, f, t, i, thr),
            Some(p) => dev_above(ys, xs, f, t, i, p),
        };
        if better {
            Some(i)
        } else {
            prev
        }
    }
}

/// Where the span `f`–`t` splits: the interior point the scan selects.
pub open spec fn best_split(ys: Seq<i64>, xs: Seq<u64>, f: int, t: int, thr: int) -> Option<int> {
    scan_best(ys, xs, f, t, t - 1, thr)
}

/// Where the scan finds nothing, no visited point exceeds the
/// threshold.
proof fn lemma_scan_none_all_within(
    ys: Seq<i64>,
    xs: Seq<u64>,
    f: int,
    t: int,
    i: int,
    thr: int,
    j: int,
)
    requires
        scan_best(ys, xs, f, t, i, thr) is None,
        f < j <= i,
    ensures
        !dev_exceeds(ys, xs, f, t, j, thr),
    decreases i - f,
{
    if j < i {
        lemma_scan_none_all_within(ys, xs, f, t, i - 1, thr, j);
    }
}

/// Where the selector stops — it splits a span no further — every
/// residual deviation inside that span is already within the
/// threshold.  This is why a second run over the selector's own output
/// introduces no new extrema.
pub proof fn lemma_no_split_means_within_threshold(
    ys: Seq<i64>,
    xs: Seq<u64>,
    f: int,
    t: int,
    thr: int,
    j: int,
)
    requires
        best_split(ys, xs, f, t, thr) is None,
        f < j < t,
    ensures
        !dev_exceeds(ys, xs, f, t, j, thr),
{
    lemma_scan_none_all_within(ys, xs, f, t, t - 1, thr, j);
}

/// The set of interior indices the selector marks within the span
/// `f`–`t`: the split point, and recursively those of both half-spans.
pub open spec fn extrema_between(ys: Seq<i64>, xs: Seq<u64>, f: int, t: int, thr: int) -> Set<int>
    decreases t - f,
{
    if f < t {
        match best_split(ys, xs, f, t, thr) {
            Some(mx) => if f < mx < t {
                extrema_between(ys, xs, f, mx, thr).union(
                    extrema_between(ys, xs, mx, t, thr),
                ).insert(mx)
            } else {
                Set::empty()
            },
            None => Set::empty(),
        }
    } else {
        Set::empty()
    }
}

/// Marks the extrema of the span `f`–`t`: scans the interior for the
/// point of greatest deviation from the chord, and where it exceeds the
/// threshold, marks it and recurses on both half-spans.
fn mark_extrema_between(profile: Vec<TrackPoint>, xs: &Vec<u64>, f: usize, t: usize, thr: u64) -> (
    out: Vec<TrackPoint>)
    requires
        profile.len() == xs.len(),
        f < t < profile.len(),
        elevations_bounded(profile@),
        xs_bounded(xs@),
        thr <= MAX_PROFILE_SPAN_CM,
    ensures
        out.len() == profile.len(),
        forall|j: int| 0 <= j < profile.len() ==> {
            &&& (#[trigger] out[j]).position == profile[j].position
            &&& out[j].elevation_cm == profile[j].elevation_cm
            &&& out[j].distance_cm == profile[j].distance_cm
            &&& out[j].survived == profile[j].survived
        },
        forall|j: int|
            0 <= j < profile.len() ==> (#[trigger] out[j]).is_extremum == (profile[
                j
            ].is_extremum || extrema_between(
                elevs(profile@),
                xs@,
                f as int,
                t as int,
                thr as int,
            ).contains(j)),
    decreases t - f,
{
    let ghost ys = elevs(profile@);
    let mut p = profile;
    let m = chord_sq_i128(&p, xs, f, t);
    let mut found = false;
    let mut best_idx: usize = 0;
    let mut b_num: i128 = 0;
    let mut b_proj = false;
    let mut i: usize = f + 1;
    while i < t
        invariant
            f < i <= t < p.len(),
            p.len() == xs.len(),
            p@ == profile@,
            ys == elevs(profile@),
            elevations_bounded(p@),
            xs_bounded(xs@),
            thr <= MAX_PROFILE_SPAN_CM,
            m == crate::deviation::chord_sq(ys, xs@, f as int, t as int),
            0 <= m <= 0x8000_0000_0000_0000,
            found == (scan_best(ys, xs@, f as int, t as int, i - 1, thr as int) is Some),
            found ==> {
                &&& Some(best_idx as int) == scan_best(ys, xs@, f as int, t as int, i - 1, thr as int)
                &&& f < best_idx < t
                &&& b_num == crate::deviation::dev_num(ys, xs@, f as int, t as int, best_idx as int)
                &&& b_proj == dev_projected(ys, xs@, f as int, t as int, best_idx as int)
                &&& 0 <= b_num
                &&& (b_proj ==> b_num <= 0x4_0000_0000_0000_0000_0000_0000_0000)
                &&& (!b_proj ==> b_num <= 0x8000_0000_0000_0000)
                &&& (b_proj ==> m >= 1)
            },
        decreases t - i,
    {
        let d = dev_measure(&p, xs, f, t, i);
        let better = if found {
            proof {
                if d.1 || b_proj {
                    assert(m >= 1);
                }
            }
            dev_above_exec(d.0, d.1, b_num, b_proj, m)
        } else {
            proof {
                if d.1 {
                    assert(m >= 1);
                }
            }
            dev_exceeds_exec(d.0, d.1, m, thr)
        };
        proof {
            assert(den_sel(d.1, m as int) == crate::deviation::dev_den(
                ys,
                xs@,
                f as int,
                t as int,
                i as int,
            ));
            if found {
                assert(den_sel(b_proj, m as int) == crate::deviation::dev_den(
                    ys,
                    xs@,
                    f as int,
                    t as int,
                    best_idx as int,
                ));
            }
        }
        if better {
            found = true;
            best_idx = i;
            b_num = d.0;
            b_proj = d.1;
        }
        i = i + 1;
    }
    if found {
        let mut marked = p[best_idx];
        marked.is_extremum = true;
        p.set(best_idx, marked);
        let ghost mid = p@;
        proof {
            assert(elevs(mid) =~= ys);
        }
        p = mark_extrema_between(p, xs, f, best_idx, thr);
        let ghost after_left = p@;
        proof {
            assert(elevs(after_left) =~= ys);
        }
        p = mark_extrema_between(p, xs, best_idx, t, thr);
        proof {
            let fi = f as int;
            let ti = t as int;
            let mx = best_idx as int;
            let th = thr as int;
            assert(extrema_between(ys, xs@, fi, ti, th) =~= extrema_between(
                ys,
                xs@,
                fi,
                mx,
                th,
            ).union(extrema_between(ys, xs@, mx, ti, th)).insert(mx));
        }
    }
    p
}

/// The extremum flags of a profile.
pub open spec fn ext_flags(s: Seq<TrackPoint>) -> Seq<bool> {
    Seq::new(s.len(), |j: int| s[j].is_extremum)
}

/// The extremum flags after one selector run over a whole profile:
/// both endpoints, every flag already set, and every index the
/// recursive simplification of the full span selects.
pub open spec fn selected_flags(ys: Seq<i64>, xs: Seq<u64>, thr: int, flags: Seq<bool>) -> Seq<
    bool,
> {
    Seq::new(
        flags.len(),
        |j: int|
            j == 0 || j == flags.len() - 1 || flags[j] || extrema_between(
                ys,
                xs,
                0,
                flags.len() - 1,
                thr,
            ).contains(j),
    )
}

/// Runs the selector over the whole profile: marks both endpoints and
/// every point the recursive maximum-deviation simplification keeps.
/// `xs` gives each point's cumulative distance along the profile.
pub fn select_extrema(profile: Vec<TrackPoint>, xs: &Vec<u64>, threshold_cm: u64) -> (out: Vec<
    TrackPoint,
>)
    requires
        profile.len() == xs.len(),
        profile.len() >= 2,
        elevations_bounded(profile@),
        xs_bounded(xs@),
        threshold_cm <= MAX_PROFILE_SPAN_CM,
    ensures
        out.len() == profile.len(),
        forall|j: int| 0 <= j < profile.len() ==> {
            &&& (#[trigger] out[j]).position == profile[j].position
            &&& out[j].elevation_cm == profile[j].elevation_cm
            &&& out[j].distance_cm == profile[j].distance_cm
            &&& out[j].survived == profile[j].survived
        },
        ext_flags(out@) == selected_flags(
            elevs(profile@),
            xs@,
            threshold_cm as int,
            ext_flags(profile@),
        ),
        out[0].is_extremum,
        out[profile.len() - 1].is_extremum,
{
    let ghost ys = elevs(profile@);
    let ghost flags0 = ext_flags(profile@);
    let mut p = profile;
    let n = p.len();
    let mut first = p[0];
    first.is_extremum = true;
    p.set(0, first);
    let mut last = p[n - 1];
    last.is_extremum = true;
    p.set(n - 1, last);
    proof {
        assert(elevs(p@) =~= ys);
    }
    let out = mark_extrema_between(p, xs, 0, n - 1, threshold_cm);
    proof {
        assert(ext_flags(out@) =~= selected_flags(ys, xs@, threshold_cm as int, flags0));
    }
    out
}

/// Idempotence of the selector: one more run over its own output, with
/// the same threshold and the same geometry, changes no flag — every
/// residual deviation is already below the threshold by construction.
pub proof fn lemma_selection_idempotent(ys: Seq<i64>, xs: Seq<u64>, thr: int, flags: Seq<bool>)
    ensures
        selected_flags(ys, xs, thr, selected_flags(ys, xs, thr, flags)) == selected_flags(
            ys,
            xs,
            thr,
            flags,
        ),
{
    assert(selected_flags(ys, xs, thr, selected_flags(ys, xs, thr, flags)) =~= selected_flags(
        ys,
        xs,
        thr,
        flags,
    ));
}

} // verus!
