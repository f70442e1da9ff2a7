//! Geographic positions and the great-circle distance between them.
//!
//! A position stores latitude and longitude as integer nanodegrees, so
//! the verified pipeline never touches floating point.  The distance
//! itself is computed by the `geo` crate behind one trusted wrapper;
//! its result is named by the uninterpreted function `haversine_cm`.

use vstd::prelude::*;

verus! {

/// A geographic position in integer nanodegrees (1e-9 degree, about
/// 0.1 mm of latitude), fine enough to represent any GPS fix exactly.
#[derive(Clone, Copy, Debug, PartialEq, Eq, Structural)]
pub struct Position {
    pub lat_ndeg: i64,
    pub lon_ndeg: i64,
}

/// The great-circle distance in centimeters between two positions, as
/// the `geo` crate computes it from the two coordinate pairs alone.
pub uninterp spec fn haversine_cm(lat_a: int, lon_a: int, lat_b: int, lon_b: int) -> nat;

/// `haversine_cm` applied to two positions, widened to `int` for use
/// in arithmetic specifications.
pub open spec fn hav(a: Position, b: Position) -> int {
    haversine_cm(a.lat_ndeg as int, a.lon_ndeg as int, b.lat_ndeg as int, b.lon_ndeg as int) as int
}

/// No great-circle distance on the mean-radius earth sphere exceeds
/// half its circumference, pi * 6_371_008.8 m < 20_016 km.
pub const MAX_GEODESIC_CM: u64 = 2_002_000_000;

/// Relies on `geo::HaversineMeasure::distance` (haversine formula on a
/// sphere), here with the radius of geo's own `Haversine` constant — the
/// GRS80 mean radius, 6_371_008.8 m — written in centimeters, so the
/// result is in centimeters.  The nanodegree coordinates are handed
/// over as exact decimal strings (`<ndeg>e-9` degrees).  The result is
/// a function of the two coordinate pairs alone, and equals
/// `radius * 2 * asin(sqrt(a))`, which is at most `radius * pi` since
/// `asin` yields at most `pi/2`; when `asin` yields NaN the saturating
/// cast returns 0.
#[verifier::external_body]
pub(crate) fn haversine_distance_cm(a: &Position, b: &Position) -> (r: u64)
    ensures
        r == haversine_cm(a.lat_ndeg as int, a.lon_ndeg as int, b.lat_ndeg as int, b.lon_ndeg as int),
        r <= MAX_GEODESIC_CM,
{
    let sphere = geo::HaversineMeasure::new(Into::into(637_100_880u32));
    let pa: geo::Point = geo::Point::new(
        format!("{}e-9", a.lon_ndeg).parse().unwrap(),
        format!("{}e-9", a.lat_ndeg).parse().unwrap(),
    );
    let pb: geo::Point = geo::Point::new(
        format!("{}e-9", b.lon_ndeg).parse().unwrap(),
        format!("{}e-9", b.lat_ndeg).parse().unwrap(),
    );
    geo::Distance::distance(&sphere, pa, pb) as u64
}

} // verus!
