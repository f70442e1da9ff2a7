//! The statistics aggregator: walks the marked extrema left to right
//! and accumulates every positive elevation step into the gain and the
//! magnitude of every other step into the loss.

use vstd::prelude::*;

use crate::track::{elevations_bounded, TrackPoint, MAX_ELEVATION_CM, MAX_TRACK_POINTS};

verus! {

/// The elevations of the points of `s[0..=i]` marked as extrema, in
/// order.
pub open spec fn extremum_elevs(s: Seq<TrackPoint>, i: int) -> Seq<int>
    decreases i + 1,
{
    if i < 0 {
        Seq::empty()
    } else if s[i].is_extremum {
        extremum_elevs(s, i - 1).push(s[i].elevation_cm as int)
    } else {
        extremum_elevs(s, i - 1)
    }
}

/// Total ascent over a sequence of elevations: the sum of the positive
/// steps.
pub open spec fn gain_of(es: Seq<int>) -> int
    decreases es.len(),
{
    if es.len() <= 1 {
        0
    } else {
        gain_of(es.drop_last()) + if es[es.len() - 1] > es[es.len() - 2] {
            es[es.len() - 1] - es[es.len() - 2]
        } else {
            0
        }
    }
}

/// Total descent over a sequence of elevations: the sum of the
/// magnitudes of the non-positive steps.
pub open spec fn loss_of(es: Seq<int>) -> int
    decreases es.len(),
{
    if es.len() <= 1 {
        0
    } else {
        loss_of(es.drop_last()) + if es[es.len() - 1] > es[es.len() - 2] {
            0
        } else {
            es[es.len() - 2] - es[es.len() - 1]
        }
    }
}

/// Gain and loss are sums of nonnegative steps.
pub proof fn lemma_gain_loss_nonneg(es: Seq<int>)
    ensures
        gain_of(es) >= 0,
        loss_of(es) >= 0,
    decreases es.len(),
{
    if es.len() > 1 {
        lemma_gain_loss_nonneg(es.drop_last());
    }
}

/// The telescoping law: over any elevation sequence the difference
/// between total gain and total loss equals the difference between the
/// last and the first elevation.
pub proof fn lemma_gain_loss_telescope(es: Seq<int>)
    requires
        es.len() >= 1,
    ensures
        gain_of(es) - loss_of(es) == es[es.len() - 1] - es[0],
    decreases es.len(),
{
    if es.len() > 1 {
        lemma_gain_loss_telescope(es.drop_last());
    }
}

/// A profile whose first point is an extremum contributes it to the
/// extremum elevations, so they are never empty and start with it.
pub proof fn lemma_first_extremum_counted(s: Seq<TrackPoint>, i: int)
    requires
        0 <= i < s.len(),
        s[0].is_extremum,
    ensures
        extremum_elevs(s, i).len() >= 1,
        extremum_elevs(s, i)[0] == s[0].elevation_cm as int,
    decreases i,
{
    reveal_with_fuel(extremum_elevs, 2);
    if i > 0 {
        lemma_first_extremum_counted(s, i - 1);
    }
}

/// Each step moves gain and loss by at most the elevation span.
pub proof fn lemma_gain_loss_bounded(es: Seq<int>)
    requires
        forall|k: int| 0 <= k < es.len() ==> -MAX_ELEVATION_CM <= #[trigger] es[k] <= MAX_ELEVATION_CM,
    ensures
        es.len() >= 1 ==> gain_of(es) <= (es.len() - 1) * (2 * MAX_ELEVATION_CM),
        es.len() >= 1 ==> loss_of(es) <= (es.len() - 1) * (2 * MAX_ELEVATION_CM),
    decreases es.len(),
{
    if es.len() > 1 {
        lemma_gain_loss_bounded(es.drop_last());
        assert((es.len() - 2) * (2 * MAX_ELEVATION_CM) + (2 * MAX_ELEVATION_CM) == (es.len() - 1)
            * (2 * MAX_ELEVATION_CM)) by (nonlinear_arith);
    }
}

/// Walks the flagged extrema and accumulates total gain and loss, in
/// centimeters.  The first point stands in for the first extremum, as
/// the selector always marks it.
pub fn aggregate_gain_loss(profile: &Vec<TrackPoint>) -> (r: (u64, u64))
    requires
        1 <= profile.len() <= MAX_TRACK_POINTS,
        elevations_bounded(profile@),
        profile[0].is_extremum,
    ensures
        r.0 == gain_of(extremum_elevs(profile@, profile.len() - 1)),
        r.1 == loss_of(extremum_elevs(profile@, profile.len() - 1)),
{
    let n = profile.len();
    let mut gain: u64 = 0;
    let mut loss: u64 = 0;
    let mut prev: i64 = profile[0].elevation_cm;
    let mut i: usize = 1;
    proof {
        reveal_with_fuel(extremum_elevs, 2);
        assert(extremum_elevs(profile@, 0) =~= Seq::empty().push(
            profile@[0].elevation_cm as int,
        ));
    }
    while i < n
        invariant
            1 <= i <= n,
            n == profile.len(),
            n <= MAX_TRACK_POINTS,
            elevations_bounded(profile@),
            profile[0].is_extremum,
            ({
                let es = extremum_elevs(profile@, i - 1);
                &&& 1 <= es.len() <= i
                &&& prev == es[es.len() - 1]
                &&& -MAX_ELEVATION_CM <= prev <= MAX_ELEVATION_CM
                &&& gain == gain_of(es)
                &&& loss == loss_of(es)
                &&& gain <= (es.len() - 1) * (2 * MAX_ELEVATION_CM)
                &&& loss <= (es.len() - 1) * (2 * MAX_ELEVATION_CM)
            }),
        decreases n - i,
    {
        if profile[i].is_extremum {
            let ghost es = extremum_elevs(profile@, i - 1);
            let e = profile[i].elevation_cm;
            proof {
                assert(extremum_elevs(profile@, i as int) =~= es.push(e as int));
                assert(es.push(e as int).drop_last() =~= es);
                assert((es.len() - 1) * (2 * MAX_ELEVATION_CM) + (2 * MAX_ELEVATION_CM) == (es.len())
                    * (2 * MAX_ELEVATION_CM)) by (nonlinear_arith);
                assert((es.len()) * (2 * MAX_ELEVATION_CM) <= MAX_TRACK_POINTS * (2
                    * MAX_ELEVATION_CM)) by (nonlinear_arith)
                    requires 0 <= es.len() <= MAX_TRACK_POINTS as int;
            }
            if e > prev {
                gain = gain + (e - prev) as u64;
            } else {
                loss = loss + (prev - e) as u64;
            }
            prev = e;
        } else {
            proof {
                assert(extremum_elevs(profile@, i as int) =~= extremum_elevs(profile@, i - 1));
            }
        }
        i = i + 1;
    }
    (gain, loss)
}

} // verus!
