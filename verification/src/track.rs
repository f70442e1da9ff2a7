//! The data model of a track: input waypoints, annotated track points,
//! the limits the fixed-point arithmetic needs, and the error taxonomy.

use vstd::prelude::*;

use crate::geodesy::Position;

verus! {

/// One waypoint as the track parser hands it over: a position and, if
/// the recording carried one, an elevation in centimeters.
#[derive(Clone, Copy, Debug, PartialEq, Eq, Structural)]
pub struct Waypoint {
    pub position: Position,
    pub elevation_cm: Option<i64>,
}

/// One point of an annotated or rebuilt profile.  `distance_cm` is
/// cumulative from the track start right after annotation and relative
/// to the preceding survivor after the rebuild.
#[derive(Clone, Copy, Debug, PartialEq, Eq, Structural)]
pub struct TrackPoint {
    pub position: Position,
    pub distance_cm: u64,
    pub elevation_cm: i64,
    pub survived: bool,
    pub is_extremum: bool,
}

/// The filtering stage that found fewer than two survivors.
#[derive(Clone, Copy, Debug, PartialEq, Eq, Structural)]
pub enum FilterStage {
    LocalExtremum,
    Slope,
}

/// Why a computation aborted.  The first two are contract violations of
/// the input and always fatal; `InsufficientRelief` is surfaced only
/// under the strict relief policy; `TrackTooLong` is the machine limit
/// of the deviation arithmetic, far beyond any real track.
#[derive(Clone, Copy, Debug, PartialEq, Eq, Structural)]
pub enum TrackError {
    MissingElevationData { index: usize },
    EmptyOrTooShortTrack,
    InsufficientRelief { stage: FilterStage },
    TrackTooLong,
}

/// Elevations stay within 2^24 cm (about 168 km) in magnitude, so every
/// product in the deviation arithmetic fits in an `i128`.
pub const MAX_ELEVATION_CM: i64 = 16_777_216;

/// Cumulative profile distances handed to the extremum selector stay
/// within 2^31 cm (about 21_474 km), for the same reason.
pub const MAX_PROFILE_SPAN_CM: u64 = 2_147_483_648;

/// At most 2^32 waypoints, so cumulative distances fit in a `u64`.
pub const MAX_TRACK_POINTS: u64 = 4_294_967_296;

/// Every elevation of the sequence is in range.
pub open spec fn elevations_bounded(s: Seq<TrackPoint>) -> bool {
    forall|i: int| 0 <= i < s.len() ==> -MAX_ELEVATION_CM <= #[trigger] s[i].elevation_cm <= MAX_ELEVATION_CM
}

/// Every elevation the waypoints carry is in range.
pub open spec fn waypoint_elevations_bounded(s: Seq<Waypoint>) -> bool {
    forall|i: int| 0 <= i < s.len() ==> match #[trigger] s[i].elevation_cm {
        Some(e) => -MAX_ELEVATION_CM <= e <= MAX_ELEVATION_CM,
        None => true,
    }
}

} // verus!
