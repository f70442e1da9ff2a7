//! The pipeline: distance annotation, the two noise filters, the
//! profile rebuild, the extremum selector and the statistics
//! aggregator, composed into one pure function from waypoints to a
//! track summary.
//!
//! The stages run in a strict line with two early exits, one after each
//! filter: where a filter leaves fewer than two survivors the relief
//! policy decides between failing and running the remaining stages on
//! the unfiltered list, a graceful degradation for nearly flat tracks.

use vstd::prelude::*;

use crate::annotate::{
    annotate_distances, cum_dist_cm, elev_max, elev_min, elev_sum, wp_elev, RawStats,
};
use crate::deviation::{elevs, xs_bounded};
use crate::extremum::{ext_flags, select_extrema, selected_flags};
use crate::filter::{
    stage1_filter, stage1_interior_count, stage1_survives, stage2_filter, stage2_interior_count,
    stage2_survives,
};
use crate::geodesy::hav;
use crate::rebuild::{
    lemma_survivor_indices_shape, lemma_survivors_bracket, rebuild_profile, survivor_indices,
};
use crate::stats::{aggregate_gain_loss, extremum_elevs, gain_of, loss_of};
use crate::track::{
    elevations_bounded, waypoint_elevations_bounded, FilterStage, TrackError, TrackPoint, Waypoint,
    MAX_PROFILE_SPAN_CM, MAX_TRACK_POINTS,
};

verus! {

/// What to do when a filter stage leaves fewer than two survivors.
#[derive(Clone, Copy, Debug, PartialEq, Eq, Structural)]
pub enum ReliefPolicy {
    /// The lenient default: run the remaining stages over the
    /// unfiltered point list, flags as the filters left them.
    FallBackToUnfiltered,
    /// Surface `InsufficientRelief` to the caller.
    Fail,
}

/// The tuning of the pipeline: the grade limit of the slope filter in
/// percent, the deviation threshold of the extremum selector in
/// centimeters, and the relief policy.
#[derive(Clone, Copy, Debug, PartialEq, Eq, Structural)]
pub struct PipelineConfig {
    pub slope_limit_percent: u64,
    pub deviation_threshold_cm: u64,
    pub relief_policy: ReliefPolicy,
}

/// The default tuning: a 70 percent grade limit, a 7 m deviation
/// threshold, and the lenient fallback.
pub open spec fn default_config() -> PipelineConfig {
    PipelineConfig {
        slope_limit_percent: 70,
        deviation_threshold_cm: 700,
        relief_policy: ReliefPolicy::FallBackToUnfiltered,
    }
}

impl PipelineConfig {
    /// The default tuning; see `default_config`.
    pub fn defaults() -> (c: PipelineConfig)
        ensures
            c == default_config(),
    {
        PipelineConfig {
            slope_limit_percent: 70,
            deviation_threshold_cm: 700,
            relief_policy: ReliefPolicy::FallBackToUnfiltered,
        }
    }
}

/// The summary of one track: total length, total gain and loss over
/// the marked extrema, the raw elevation statistics, and the simplified
/// profile.  All lengths and elevations in centimeters; the mean
/// elevation is `elevation_sum_cm / point_count`.
#[derive(Debug, PartialEq, Eq)]
pub struct TrackSummary {
    pub length_cm: u64,
    pub gain_cm: u64,
    pub loss_cm: u64,
    pub min_elevation_cm: i64,
    pub max_elevation_cm: i64,
    pub elevation_sum_cm: i64,
    pub point_count: usize,
    pub profile: Vec<TrackPoint>,
}

// --- The pipeline, stage by stage, as a mathematical function --------

/// The annotated track: positions and elevations of the waypoints,
/// cumulative distances, no flags set.
pub open spec fn spec_annotated(ws: Seq<Waypoint>) -> Seq<TrackPoint> {
    Seq::new(
        ws.len(),
        |i: int|
            TrackPoint {
                position: ws[i].position,
                distance_cm: cum_dist_cm(ws, i) as u64,
                elevation_cm: wp_elev(ws[i]) as i64,
                survived: false,
                is_extremum: false,
            },
    )
}

/// The flags after the direction-persistence filter: interior points by
/// the test, the last point forced.
pub open spec fn spec_stage1(a: Seq<TrackPoint>) -> Seq<TrackPoint> {
    Seq::new(
        a.len(),
        |i: int|
            TrackPoint {
                position: a[i].position,
                distance_cm: a[i].distance_cm,
                elevation_cm: a[i].elevation_cm,
                survived: if i == a.len() - 1 {
                    true
                } else if 1 <= i <= a.len() - 2 {
                    stage1_survives(a, i)
                } else {
                    a[i].survived
                },
                is_extremum: a[i].is_extremum,
            },
    )
}

/// The flags after the slope filter over the first filter's output.
pub open spec fn spec_stage2(b: Seq<TrackPoint>, limit: int) -> Seq<TrackPoint> {
    Seq::new(
        b.len(),
        |i: int|
            TrackPoint {
                position: b[i].position,
                distance_cm: b[i].distance_cm,
                elevation_cm: b[i].elevation_cm,
                survived: if 1 <= i <= b.len() - 2 {
                    stage2_survives(b, i, limit)
                } else {
                    b[i].survived
                },
                is_extremum: b[i].is_extremum,
            },
    )
}

/// Both endpoints forced to survive before the rebuild.
pub open spec fn spec_forced(c: Seq<TrackPoint>) -> Seq<TrackPoint> {
    Seq::new(
        c.len(),
        |i: int|
            TrackPoint {
                position: c[i].position,
                distance_cm: c[i].distance_cm,
                elevation_cm: c[i].elevation_cm,
                survived: i == 0 || i == c.len() - 1 || c[i].survived,
                is_extremum: c[i].is_extremum,
            },
    )
}

/// The rebuilt profile: the survivors in order, distances re-indexed to
/// the segment from the preceding survivor.
pub open spec fn spec_rebuilt(d: Seq<TrackPoint>) -> Seq<TrackPoint> {
    let idx = survivor_indices(d, d.len() - 1);
    Seq::new(
        idx.len(),
        |k: int|
            TrackPoint {
                position: d[idx[k]].position,
                distance_cm: if k == 0 {
                    0u64
                } else {
                    hav(d[idx[k]].position, d[idx[k - 1]].position) as u64
                },
                elevation_cm: d[idx[k]].elevation_cm,
                survived: true,
                is_extremum: false,
            },
    )
}

/// Cumulative distance along a profile up to point `i`: the sum of its
/// distance fields.
pub open spec fn profile_cum(s: Seq<TrackPoint>, i: int) -> int
    decreases i + 1,
{
    if i < 0 {
        0
    } else {
        profile_cum(s, i - 1) + s[i].distance_cm
    }
}

/// The x coordinates the selector reads over a rebuilt profile:
/// cumulative distance along it.
pub open spec fn spec_cum_xs(p: Seq<TrackPoint>) -> Seq<u64> {
    Seq::new(p.len(), |i: int| profile_cum(p, i) as u64)
}

/// The x coordinates the selector reads over an unfiltered annotated
/// profile: its distance fields, already cumulative.
pub open spec fn spec_dist_xs(p: Seq<TrackPoint>) -> Seq<u64> {
    Seq::new(p.len(), |i: int| p[i].distance_cm)
}

/// The profile after the selector: flags per `selected_flags`, all
/// other fields kept.
pub open spec fn spec_marked(p: Seq<TrackPoint>, xs: Seq<u64>, thr: int) -> Seq<TrackPoint> {
    Seq::new(
        p.len(),
        |j: int|
            TrackPoint {
                position: p[j].position,
                distance_cm: p[j].distance_cm,
                elevation_cm: p[j].elevation_cm,
                survived: p[j].survived,
                is_extremum: selected_flags(elevs(p), xs, thr, ext_flags(p))[j],
            },
    )
}

/// The first filter's survivor count: surviving interior points plus
/// the forced last point.
pub open spec fn stage1_total_count(a: Seq<TrackPoint>) -> int {
    stage1_interior_count(a, a.len() - 2) + 1
}

/// The slope filter's survivor count: interior points that stayed
/// survived.
pub open spec fn stage2_total_count(b: Seq<TrackPoint>, limit: int) -> int {
    stage2_interior_count(b, b.len() - 2, limit)
}

/// The statistics a summary owes for a given waypoint sequence: length
/// and elevation statistics over the raw track, gain and loss as the
/// aggregator's folds over the marked extrema of its profile, both
/// endpoints marked.
pub open spec fn summary_stats_ok(ws: Seq<Waypoint>, s: TrackSummary) -> bool {
    &&& s.length_cm == cum_dist_cm(ws, ws.len() - 1)
    &&& s.min_elevation_cm == elev_min(ws, ws.len() - 1)
    &&& s.max_elevation_cm == elev_max(ws, ws.len() - 1)
    &&& s.elevation_sum_cm == elev_sum(ws, ws.len() - 1)
    &&& s.point_count == ws.len()
    &&& s.gain_cm == gain_of(extremum_elevs(s.profile@, s.profile@.len() - 1))
    &&& s.loss_cm == loss_of(extremum_elevs(s.profile@, s.profile@.len() - 1))
    &&& s.profile@.len() >= 2
    &&& s.profile@[0].is_extremum
    &&& s.profile@[s.profile@.len() - 1].is_extremum
}

/// The outcome of the remaining stages over an unfiltered point list
/// `pts`, whose distance fields are cumulative: `TrackTooLong` where a
/// distance is beyond the selector's span limit, else the summary whose
/// profile is `pts` with the selector's flags.
pub open spec fn fallback_outcome(
    ws: Seq<Waypoint>,
    config: PipelineConfig,
    pts: Seq<TrackPoint>,
    result: Result<TrackSummary, TrackError>,
) -> bool {
    if exists|i: int| 0 <= i < pts.len() && (#[trigger] pts[i]).distance_cm > MAX_PROFILE_SPAN_CM {
        result == Err::<TrackSummary, TrackError>(TrackError::TrackTooLong)
    } else {
        match result {
            Ok(s) => {
                &&& s.profile@ == spec_marked(
                    pts,
                    spec_dist_xs(pts),
                    config.deviation_threshold_cm as int,
                )
                &&& summary_stats_ok(ws, s)
            },
            Err(_) => false,
        }
    }
}

/// The outcome of the whole pipeline over a track of at least two
/// waypoints, all carrying elevation.
pub open spec fn pipeline_outcome(
    ws: Seq<Waypoint>,
    config: PipelineConfig,
    result: Result<TrackSummary, TrackError>,
) -> bool {
    let a = spec_annotated(ws);
    let b = spec_stage1(a);
    if stage1_total_count(a) < 2 {
        match config.relief_policy {
            ReliefPolicy::Fail => result == Err::<TrackSummary, TrackError>(
                TrackError::InsufficientRelief { stage: FilterStage::LocalExtremum },
            ),
            ReliefPolicy::FallBackToUnfiltered => fallback_outcome(ws, config, b, result),
        }
    } else {
        let c = spec_stage2(b, config.slope_limit_percent as int);
        if stage2_total_count(b, config.slope_limit_percent as int) < 2 {
            match config.relief_policy {
                ReliefPolicy::Fail => result == Err::<TrackSummary, TrackError>(
                    TrackError::InsufficientRelief { stage: FilterStage::Slope },
                ),
                ReliefPolicy::FallBackToUnfiltered => fallback_outcome(ws, config, c, result),
            }
        } else {
            let p = spec_rebuilt(spec_forced(c));
            if exists|k: int| 0 <= k < p.len() && #[trigger] profile_cum(p, k) > MAX_PROFILE_SPAN_CM {
                result == Err::<TrackSummary, TrackError>(TrackError::TrackTooLong)
            } else {
                match result {
                    Ok(s) => {
                        &&& s.profile@ == spec_marked(
                            p,
                            spec_cum_xs(p),
                            config.deviation_threshold_cm as int,
                        )
                        &&& summary_stats_ok(ws, s)
                    },
                    Err(_) => false,
                }
            }
        }
    }
}

/// The telescoping law at the summary: whenever a summary meets its
/// statistics contract, gain minus loss equals the elevation of the
/// last marked extremum minus that of the first.
pub proof fn lemma_summary_telescopes(ws: Seq<Waypoint>, s: TrackSummary)
    requires
        summary_stats_ok(ws, s),
    ensures
        ({
            let es = extremum_elevs(s.profile@, s.profile@.len() - 1);
            s.gain_cm - s.loss_cm == es[es.len() - 1] - es[0]
        }),
{
    crate::stats::lemma_first_extremum_counted(s.profile@, s.profile@.len() - 1);
    crate::stats::lemma_gain_loss_telescope(extremum_elevs(s.profile@, s.profile@.len() - 1));
}

// --- Executable helpers ----------------------------------------------

/// Reads the distance fields as the selector's x coordinates, refusing
/// a profile that leaves the selector's span limit.
fn distance_xs(profile: &Vec<TrackPoint>) -> (r: Result<Vec<u64>, TrackError>)
    ensures
        r matches Ok(xs) ==> xs@ == spec_dist_xs(profile@) && xs_bounded(xs@),
        (r is Err) <==> exists|i: int|
            0 <= i < profile.len() && (#[trigger] profile[i]).distance_cm > MAX_PROFILE_SPAN_CM,
        r matches Err(e) ==> e == TrackError::TrackTooLong,
{
    let n = profile.len();
    let mut xs: Vec<u64> = Vec::new();
    let mut i: usize = 0;
    while i < n
        invariant
            0 <= i <= n,
            n == profile.len(),
            xs.len() == i,
            forall|j: int| 0 <= j < i ==> #[trigger] xs[j] == profile[j].distance_cm,
            forall|j: int|
                0 <= j < i ==> (#[trigger] profile[j]).distance_cm <= MAX_PROFILE_SPAN_CM,
        decreases n - i,
    {
        let d = profile[i].distance_cm;
        if d > MAX_PROFILE_SPAN_CM {
            return Err(TrackError::TrackTooLong);
        }
        xs.push(d);
        i = i + 1;
    }
    proof {
        assert(xs@ =~= spec_dist_xs(profile@));
    }
    Ok(xs)
}

/// Accumulates the distance fields into cumulative x coordinates,
/// refusing a profile whose total leaves the selector's span limit.
fn cumulative_xs(profile: &Vec<TrackPoint>) -> (r: Result<Vec<u64>, TrackError>)
    ensures
        r matches Ok(xs) ==> xs@ == spec_cum_xs(profile@) && xs_bounded(xs@),
        (r is Err) <==> exists|k: int|
            0 <= k < profile.len() && #[trigger] profile_cum(profile@, k) > MAX_PROFILE_SPAN_CM,
        r matches Err(e) ==> e == TrackError::TrackTooLong,
{
    let n = profile.len();
    let mut xs: Vec<u64> = Vec::new();
    let mut cur: u64 = 0;
    let mut i: usize = 0;
    while i < n
        invariant
            0 <= i <= n,
            n == profile.len(),
            xs.len() == i,
            cur == profile_cum(profile@, i - 1),
            0 <= cur <= MAX_PROFILE_SPAN_CM,
            forall|j: int| 0 <= j < i ==> #[trigger] xs[j] == profile_cum(profile@, j),
            forall|j: int|
                0 <= j < i ==> #[trigger] profile_cum(profile@, j) <= MAX_PROFILE_SPAN_CM,
        decreases n - i,
    {
        let d = profile[i].distance_cm;
        if d > MAX_PROFILE_SPAN_CM {
            proof {
                assert(profile_cum(profile@, i as int) == cur + d);
            }
            return Err(TrackError::TrackTooLong);
        }
        let next = cur + d;
        if next > MAX_PROFILE_SPAN_CM {
            proof {
                assert(profile_cum(profile@, i as int) == cur + d);
            }
            return Err(TrackError::TrackTooLong);
        }
        xs.push(next);
        cur = next;
        i = i + 1;
    }
    proof {
        assert(xs@ =~= spec_cum_xs(profile@));
        assert forall|j: int| 0 <= j < profile.len() implies #[trigger] profile_cum(profile@, j)
            <= MAX_PROFILE_SPAN_CM by {}
    }
    Ok(xs)
}

/// Forces the first and last point to survive, as the rebuild expects.
fn force_endpoints(points: Vec<TrackPoint>) -> (out: Vec<TrackPoint>)
    requires
        points.len() >= 1,
    ensures
        out@ == spec_forced(points@),
{
    let mut p = points;
    let n = p.len();
    let mut first = p[0];
    first.survived = true;
    p.set(0, first);
    let mut last = p[n - 1];
    last.survived = true;
    p.set(n - 1, last);
    proof {
        assert(p@ =~= spec_forced(points@));
    }
    p
}

/// Runs the selector and the aggregator over a profile and assembles
/// the summary around the given raw statistics.
fn finish_summary(
    pts: Vec<TrackPoint>,
    xs: Vec<u64>,
    threshold_cm: u64,
    stats: RawStats,
    length_cm: u64,
) -> (s: TrackSummary)
    requires
        pts.len() == xs.len(),
        2 <= pts.len() <= MAX_TRACK_POINTS,
        elevations_bounded(pts@),
        xs_bounded(xs@),
        threshold_cm <= MAX_PROFILE_SPAN_CM,
    ensures
        s.profile@ == spec_marked(pts@, xs@, threshold_cm as int),
        s.gain_cm == gain_of(extremum_elevs(s.profile@, s.profile@.len() - 1)),
        s.loss_cm == loss_of(extremum_elevs(s.profile@, s.profile@.len() - 1)),
        s.length_cm == length_cm,
        s.min_elevation_cm == stats.min_elevation_cm,
        s.max_elevation_cm == stats.max_elevation_cm,
        s.elevation_sum_cm == stats.elevation_sum_cm,
        s.point_count == stats.point_count,
        s.profile@.len() >= 2,
        s.profile@[0].is_extremum,
        s.profile@[s.profile@.len() - 1].is_extremum,
{
    let ghost pts0 = pts@;
    let marked = select_extrema(pts, &xs, threshold_cm);
    proof {
        assert(marked@ =~= spec_marked(pts0, xs@, threshold_cm as int));
    }
    let (gain, loss) = aggregate_gain_loss(&marked);
    TrackSummary {
        length_cm,
        gain_cm: gain,
        loss_cm: loss,
        min_elevation_cm: stats.min_elevation_cm,
        max_elevation_cm: stats.max_elevation_cm,
        elevation_sum_cm: stats.elevation_sum_cm,
        point_count: stats.point_count,
        profile: marked,
    }
}

/// The whole computation: annotates distances and raw statistics over
/// the flattened waypoints, runs both noise filters, rebuilds the
/// profile, marks its extrema and aggregates gain and loss.  Pure and
/// deterministic; no partial summary accompanies an error.
pub fn summarize_track(waypoints: &Vec<Waypoint>, config: &PipelineConfig) -> (result: Result<
    TrackSummary,
    TrackError,
>)
    requires
        waypoints.len() <= MAX_TRACK_POINTS,
        waypoint_elevations_bounded(waypoints@),
        config.deviation_threshold_cm <= MAX_PROFILE_SPAN_CM,
    ensures
        (result matches Err(TrackError::EmptyOrTooShortTrack)) <==> waypoints.len() < 2,
        (result matches Err(TrackError::MissingElevationData { index }) ==> {
            &&& waypoints@[index as int].elevation_cm is None
            &&& forall|j: int| 0 <= j < index ==> (#[trigger] waypoints@[j]).elevation_cm is Some
        }),
        (result matches Err(TrackError::MissingElevationData { .. })) <==> (waypoints.len() >= 2
            && exists|j: int|
            0 <= j < waypoints.len() && (#[trigger] waypoints@[j]).elevation_cm is None),
        (waypoints.len() >= 2 && forall|j: int|
            0 <= j < waypoints.len() ==> (#[trigger] waypoints@[j]).elevation_cm is Some)
            ==> pipeline_outcome(waypoints@, *config, result),
        result matches Ok(s) ==> summary_stats_ok(waypoints@, s),
{
    let ghost ws = waypoints@;
    let annotated = match annotate_distances(waypoints) {
        Ok(t) => t,
        Err(e) => {
            return Err(e);
        },
    };
    let stats = annotated.stats;
    let n = annotated.points.len();
    let length_cm = annotated.points[n - 1].distance_cm;
    let ghost a = spec_annotated(ws);
    proof {
        assert(annotated.points@ =~= a);
    }
    let (p1, c1) = stage1_filter(annotated.points);
    let ghost b = spec_stage1(a);
    proof {
        assert(p1@ =~= b);
    }
    if c1 < 2 {
        match config.relief_policy {
            ReliefPolicy::Fail => {
                return Err(TrackError::InsufficientRelief { stage: FilterStage::LocalExtremum });
            },
            ReliefPolicy::FallBackToUnfiltered => {
                let xs = match distance_xs(&p1) {
                    Ok(xs) => xs,
                    Err(e) => {
                        return Err(e);
                    },
                };
                return Ok(finish_summary(p1, xs, config.deviation_threshold_cm, stats, length_cm));
            },
        }
    }
    let (p2, c2) = stage2_filter(p1, config.slope_limit_percent);
    let ghost c = spec_stage2(b, config.slope_limit_percent as int);
    proof {
        assert(p2@ =~= c);
    }
    if c2 < 2 {
        match config.relief_policy {
            ReliefPolicy::Fail => {
                return Err(TrackError::InsufficientRelief { stage: FilterStage::Slope });
            },
            ReliefPolicy::FallBackToUnfiltered => {
                let xs = match distance_xs(&p2) {
                    Ok(xs) => xs,
                    Err(e) => {
                        return Err(e);
                    },
                };
                return Ok(finish_summary(p2, xs, config.deviation_threshold_cm, stats, length_cm));
            },
        }
    }
    let p3 = force_endpoints(p2);
    let ghost d = spec_forced(c);
    let profile = rebuild_profile(&p3);
    let ghost p = spec_rebuilt(d);
    proof {
        lemma_survivor_indices_shape(p3@, p3.len() - 1);
        lemma_survivors_bracket(p3@, p3.len() - 1);
        assert(profile@ =~= p);
        let idx = survivor_indices(p3@, p3.len() - 1);
        assert(idx.len() - 1 <= idx[idx.len() - 1] < p3.len());
        assert(elevations_bounded(profile@)) by {
            assert forall|k: int|
                0 <= k < profile.len() implies -crate::track::MAX_ELEVATION_CM <= (
            #[trigger] profile@[k]).elevation_cm <= crate::track::MAX_ELEVATION_CM by {
                assert(profile@[k].elevation_cm == p3@[idx[k]].elevation_cm);
            }
        }
    }
    let xs = match cumulative_xs(&profile) {
        Ok(xs) => xs,
        Err(e) => {
            return Err(e);
        },
    };
    Ok(finish_summary(profile, xs, config.deviation_threshold_cm, stats, length_cm))
}

} // verus!
