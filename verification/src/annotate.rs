//! Distance annotation: turns the flattened waypoint list into track
//! points carrying cumulative great-circle distance, and gathers the
//! raw elevation statistics over all points, before any filtering.

use vstd::prelude::*;

use crate::geodesy::{hav, MAX_GEODESIC_CM};
use crate::track::{
    waypoint_elevations_bounded, TrackError, TrackPoint, Waypoint, MAX_ELEVATION_CM,
    MAX_TRACK_POINTS,
};

verus! {

/// The elevation of a waypoint, as an `int`; meaningful only where the
/// waypoint carries one.
pub open spec fn wp_elev(w: Waypoint) -> int {
    w.elevation_cm.unwrap() as int
}

/// Cumulative great-circle distance from the first waypoint to the
/// `i`-th one: the sum of the consecutive pairwise distances.
pub open spec fn cum_dist_cm(ws: Seq<Waypoint>, i: int) -> int
    decreases i,
{
    if i <= 0 {
        0
    } else {
        cum_dist_cm(ws, i - 1) + hav(ws[i - 1].position, ws[i].position)
    }
}

/// Least elevation among waypoints `0..=i`.
pub open spec fn elev_min(ws: Seq<Waypoint>, i: int) -> int
    decreases i,
{
    if i <= 0 {
        wp_elev(ws[0])
    } else if wp_elev(ws[i]) < elev_min(ws, i - 1) {
        wp_elev(ws[i])
    } else {
        elev_min(ws, i - 1)
    }
}

/// Greatest elevation among waypoints `0..=i`.
pub open spec fn elev_max(ws: Seq<Waypoint>, i: int) -> int
    decreases i,
{
    if i <= 0 {
        wp_elev(ws[0])
    } else if wp_elev(ws[i]) > elev_max(ws, i - 1) {
        wp_elev(ws[i])
    } else {
        elev_max(ws, i - 1)
    }
}

/// Sum of the elevations of waypoints `0..=i`, the numerator of the
/// arithmetic mean.
pub open spec fn elev_sum(ws: Seq<Waypoint>, i: int) -> int
    decreases i,
{
    if i <= 0 {
        wp_elev(ws[0])
    } else {
        elev_sum(ws, i - 1) + wp_elev(ws[i])
    }
}

/// Raw elevation statistics over every waypoint, computed before any
/// filtering and therefore independent of the simplification outcome.
/// The mean is `elevation_sum_cm / point_count`.
#[derive(Clone, Copy, Debug, PartialEq, Eq, Structural)]
pub struct RawStats {
    pub min_elevation_cm: i64,
    pub max_elevation_cm: i64,
    pub elevation_sum_cm: i64,
    pub point_count: usize,
}

/// The annotated track: one point per waypoint, with cumulative
/// distances, plus the raw statistics.
#[derive(Debug, PartialEq, Eq)]
pub struct AnnotatedTrack {
    pub points: Vec<TrackPoint>,
    pub stats: RawStats,
}

/// What annotation promises of its `Ok` result.
pub open spec fn annotated_ok(ws: Seq<Waypoint>, t: AnnotatedTrack) -> bool {
    &&& t.points.len() == ws.len()
    &&& forall|i: int| 0 <= i < ws.len() ==> {
        &&& (#[trigger] t.points[i]).position == ws[i].position
        &&& t.points[i].elevation_cm == wp_elev(ws[i])
        &&& t.points[i].distance_cm == cum_dist_cm(ws, i)
        &&& !t.points[i].survived
        &&& !t.points[i].is_extremum
    }
    &&& t.stats.min_elevation_cm == elev_min(ws, ws.len() - 1)
    &&& t.stats.max_elevation_cm == elev_max(ws, ws.len() - 1)
    &&& t.stats.elevation_sum_cm == elev_sum(ws, ws.len() - 1)
    &&& t.stats.point_count == ws.len()
}

/// Walks the waypoints once, accumulating the pairwise great-circle
/// distances and the running elevation statistics.  Fails on a track of
/// fewer than two points, or on the first waypoint without elevation.
pub fn annotate_distances(waypoints: &Vec<Waypoint>) -> (result: Result<AnnotatedTrack, TrackError>)
    requires
        waypoints.len() <= MAX_TRACK_POINTS,
        waypoint_elevations_bounded(waypoints@),
    ensures
        (result matches Err(TrackError::EmptyOrTooShortTrack)) <==> waypoints.len() < 2,
        (result matches Err(TrackError::MissingElevationData { index }) ==> {
            &&& waypoints.len() >= 2
            &&& index < waypoints.len()
            &&& waypoints@[index as int].elevation_cm is None
            &&& forall|j: int| 0 <= j < index ==> (#[trigger] waypoints@[j]).elevation_cm is Some
        }),
        result matches Err(e) ==> (e is EmptyOrTooShortTrack || e is MissingElevationData),
        result is Ok ==> forall|j: int|
            0 <= j < waypoints.len() ==> (#[trigger] waypoints@[j]).elevation_cm is Some,
        waypoints.len() >= 2 && (forall|j: int|
            0 <= j < waypoints.len() ==> (#[trigger] waypoints@[j]).elevation_cm is Some)
            ==> result is Ok,
        result matches Ok(t) ==> annotated_ok(waypoints@, t),
{
    let n = waypoints.len();
    if n < 2 {
        return Err(TrackError::EmptyOrTooShortTrack);
    }
    let first_elev: i64 = match waypoints[0].elevation_cm {
        Some(e) => e,
        None => {
            return Err(TrackError::MissingElevationData { index: 0 });
        },
    };
    let mut points: Vec<TrackPoint> = Vec::new();
    points.push(TrackPoint {
        position: waypoints[0].position,
        distance_cm: 0,
        elevation_cm: first_elev,
        survived: false,
        is_extremum: false,
    });
    let mut min_e: i64 = first_elev;
    let mut max_e: i64 = first_elev;
    let mut sum_e: i64 = first_elev;
    let mut dist: u64 = 0;
    let mut i: usize = 1;
    while i < n
        invariant
            1 <= i <= n,
            n == waypoints.len(),
            2 <= n <= MAX_TRACK_POINTS,
            waypoint_elevations_bounded(waypoints@),
            forall|j: int| 0 <= j < i ==> (#[trigger] waypoints@[j]).elevation_cm is Some,
            points.len() == i,
            forall|j: int| 0 <= j < i ==> {
                &&& (#[trigger] points[j]).position == waypoints@[j].position
                &&& points[j].elevation_cm == wp_elev(waypoints@[j])
                &&& points[j].distance_cm == cum_dist_cm(waypoints@, j)
                &&& !points[j].survived
                &&& !points[j].is_extremum
            },
            dist == cum_dist_cm(waypoints@, i - 1),
            dist <= (i - 1) * MAX_GEODESIC_CM,
            min_e == elev_min(waypoints@, i - 1),
            max_e == elev_max(waypoints@, i - 1),
            sum_e == elev_sum(waypoints@, i - 1),
            -MAX_ELEVATION_CM <= min_e <= MAX_ELEVATION_CM,
            -MAX_ELEVATION_CM <= max_e <= MAX_ELEVATION_CM,
            -(i as int) * MAX_ELEVATION_CM <= sum_e <= (i as int) * MAX_ELEVATION_CM,
        decreases n - i,
    {
        let e: i64 = match waypoints[i].elevation_cm {
            Some(e) => e,
            None => {
                return Err(TrackError::MissingElevationData { index: i });
            },
        };
        let step = crate::geodesy::haversine_distance_cm(
            &waypoints[i - 1].position,
            &waypoints[i].position,
        );
        proof {
            assert((i - 1) * MAX_GEODESIC_CM + MAX_GEODESIC_CM == (i as int) * MAX_GEODESIC_CM)
                by (nonlinear_arith);
            assert((i as int) * MAX_GEODESIC_CM <= MAX_TRACK_POINTS * MAX_GEODESIC_CM)
                by (nonlinear_arith)
                requires i as int <= MAX_TRACK_POINTS as int;
            assert(-(i as int) * MAX_ELEVATION_CM - MAX_ELEVATION_CM == -((i + 1) as int)
                * MAX_ELEVATION_CM) by (nonlinear_arith);
            assert((i as int) * MAX_ELEVATION_CM + MAX_ELEVATION_CM == ((i + 1) as int)
                * MAX_ELEVATION_CM) by (nonlinear_arith);
            assert(((i + 1) as int) * MAX_ELEVATION_CM <= MAX_TRACK_POINTS * MAX_ELEVATION_CM)
                by (nonlinear_arith)
                requires i as int + 1 <= MAX_TRACK_POINTS as int;
        }
        dist = dist + step;
        points.push(TrackPoint {
            position: waypoints[i].position,
            distance_cm: dist,
            elevation_cm: e,
            survived: false,
            is_extremum: false,
        });
        if e < min_e {
            min_e = e;
        }
        if e > max_e {
            max_e = e;
        }
        sum_e = sum_e + e;
        i = i + 1;
    }
    Ok(AnnotatedTrack {
        points,
        stats: RawStats {
            min_elevation_cm: min_e,
            max_elevation_cm: max_e,
            elevation_sum_cm: sum_e,
            point_count: n,
        },
    })
}

} // verus!
