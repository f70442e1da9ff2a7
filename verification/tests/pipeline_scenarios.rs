//! End-to-end scenarios for the track summary pipeline.

use hikea::geodesy::Position;
use hikea::pipeline::{summarize_track, PipelineConfig, ReliefPolicy, TrackSummary};
use hikea::track::{FilterStage, TrackError, Waypoint};

/// A position `hundredths` * 0.01 degrees north of the equator, on the
/// prime meridian.  0.01 degrees of latitude is about 1112 m.
fn pos(hundredths: i64) -> Position {
    Position { lat_ndeg: hundredths * 10_000_000, lon_ndeg: 0 }
}

fn wp(hundredths: i64, elevation_m: i64) -> Waypoint {
    Waypoint { position: pos(hundredths), elevation_cm: Some(elevation_m * 100) }
}

fn run(points: &Vec<Waypoint>) -> Result<TrackSummary, TrackError> {
    let config = PipelineConfig::defaults();
    summarize_track(points, &config)
}

fn extremum_count(s: &TrackSummary) -> usize {
    s.profile.iter().filter(|p| p.is_extremum).count()
}

#[test]
fn two_points_rising_full_gain() {
    // Two points, elevations 100 then 200 m, one step apart: the first
    // filter cannot keep two survivors, the default policy falls back
    // to the unfiltered pair, both points are extrema, and the whole
    // rise counts as gain.
    let points = vec![wp(0, 100), wp(1, 200)];
    let s = run(&points).unwrap();
    assert_eq!(s.gain_cm, 10_000);
    assert_eq!(s.loss_cm, 0);
    assert_eq!(s.profile.len(), 2);
    assert!(s.profile[0].is_extremum);
    assert!(s.profile[1].is_extremum);
}

#[test]
fn monotonic_track_keeps_only_endpoints() {
    // Ten evenly spaced points rising 100 to 1000 m in steps of 100:
    // every point survives both filters, all interior points are
    // collinear in the (distance, elevation) plane, and only the two
    // endpoints end up as extrema.
    let mut points = Vec::new();
    for k in 0..10 {
        points.push(wp(k, 100 * (k + 1)));
    }
    let s = run(&points).unwrap();
    assert_eq!(s.profile.len(), 10);
    assert_eq!(extremum_count(&s), 2);
    assert!(s.profile[0].is_extremum);
    assert!(s.profile[9].is_extremum);
    assert_eq!(s.gain_cm, 90_000);
    assert_eq!(s.loss_cm, 0);
    // The rebuilt profile is segment-indexed: the first point at 0, the
    // others at their distance from the preceding survivor, here about
    // 0.01 degrees of latitude each.
    assert_eq!(s.profile[0].distance_cm, 0);
    for k in 1..10 {
        assert!(s.profile[k].distance_cm >= 111_100, "segment {k}");
        assert!(s.profile[k].distance_cm <= 111_300, "segment {k}");
    }
    // The length is the cumulative distance over the raw polyline.
    assert!(s.length_cm >= 9 * 111_100 && s.length_cm <= 9 * 111_300);
}

#[test]
fn oscillating_flat_track_nets_nothing() {
    // A long flat track with a 1 m oscillation on every sample: the
    // noise filters reject the oscillating points, and the summary
    // shows no cumulative gain or loss.
    let mut points = Vec::new();
    for k in 0..21 {
        points.push(wp(k, if k % 2 == 1 { 1 } else { 0 }));
    }
    let s = run(&points).unwrap();
    assert_eq!(s.gain_cm, 0);
    assert_eq!(s.loss_cm, 0);
}

#[test]
fn valley_has_three_extrema_and_balanced_gain_loss() {
    // A descent into a valley and an ascent back to the start height:
    // exactly three extrema (start, the surviving valley bottom, end),
    // and gain equals loss equals the depth of the valley.
    let elevations = [1000, 900, 800, 700, 600, 900, 1000];
    let mut points = Vec::new();
    for (k, e) in elevations.iter().enumerate() {
        points.push(wp(k as i64, *e));
    }
    let s = run(&points).unwrap();
    assert_eq!(extremum_count(&s), 3);
    assert_eq!(s.gain_cm, 30_000);
    assert_eq!(s.loss_cm, 30_000);
    // The middle extremum is the surviving valley bottom at 700 m.
    let middle: Vec<i64> = s
        .profile
        .iter()
        .skip(1)
        .take(s.profile.len() - 2)
        .filter(|p| p.is_extremum)
        .map(|p| p.elevation_cm)
        .collect();
    assert_eq!(middle, vec![70_000]);
}

#[test]
fn length_is_sum_of_pairwise_distances() {
    // One degree of latitude on the mean-radius sphere is 111_195.08 m;
    // the annotated length must match to within rounding.
    let points = vec![wp(0, 100), wp(100, 100)];
    let s = run(&points).unwrap();
    assert!(s.length_cm >= 11_119_400, "length {}", s.length_cm);
    assert!(s.length_cm <= 11_119_600, "length {}", s.length_cm);
}

#[test]
fn raw_statistics_cover_all_points() {
    // Min, max, sum and count come from every raw point, whatever the
    // filters later discard.
    let points = vec![wp(0, 100), wp(1, 250), wp(2, 50), wp(3, 180)];
    let s = run(&points).unwrap();
    assert_eq!(s.min_elevation_cm, 5_000);
    assert_eq!(s.max_elevation_cm, 25_000);
    assert_eq!(s.elevation_sum_cm, 58_000);
    assert_eq!(s.point_count, 4);
    assert_eq!(s.gain_cm as i64 - s.loss_cm as i64, 8_000);
}

#[test]
fn empty_track_is_rejected() {
    let points: Vec<Waypoint> = Vec::new();
    assert_eq!(run(&points).unwrap_err(), TrackError::EmptyOrTooShortTrack);
}

#[test]
fn single_point_track_is_rejected() {
    let points = vec![wp(0, 100)];
    assert_eq!(run(&points).unwrap_err(), TrackError::EmptyOrTooShortTrack);
}

#[test]
fn missing_elevation_is_rejected_with_its_index() {
    let mut points = vec![wp(0, 100), wp(1, 200), wp(2, 300)];
    points[1].elevation_cm = None;
    assert_eq!(
        run(&points).unwrap_err(),
        TrackError::MissingElevationData { index: 1 }
    );
}

#[test]
fn strict_policy_surfaces_first_stage_relief() {
    // Two points never keep two survivors through the first filter.
    let points = vec![wp(0, 100), wp(1, 200)];
    let config = PipelineConfig {
        relief_policy: ReliefPolicy::Fail,
        ..PipelineConfig::defaults()
    };
    assert_eq!(
        summarize_track(&points, &config).unwrap_err(),
        TrackError::InsufficientRelief { stage: FilterStage::LocalExtremum }
    );
}

#[test]
fn strict_policy_surfaces_slope_relief() {
    // Nearly coincident points with huge elevation jumps: the first
    // filter keeps the monotone interior, the slope filter demotes all
    // of it.
    let mut points = Vec::new();
    for k in 0..4i64 {
        points.push(Waypoint {
            position: Position { lat_ndeg: k * 1_000, lon_ndeg: 0 },
            elevation_cm: Some(k * 5_000),
        });
    }
    let config = PipelineConfig {
        relief_policy: ReliefPolicy::Fail,
        ..PipelineConfig::defaults()
    };
    assert_eq!(
        summarize_track(&points, &config).unwrap_err(),
        TrackError::InsufficientRelief { stage: FilterStage::Slope }
    );
}

#[test]
fn fallback_policy_recovers_steep_track() {
    // The same steep track under the default policy: the pipeline
    // falls back to the unfiltered list; the samples are collinear in
    // the (distance, elevation) plane, so only the endpoints are
    // extrema and the whole rise counts.
    let mut points = Vec::new();
    for k in 0..4i64 {
        points.push(Waypoint {
            position: Position { lat_ndeg: k * 1_000, lon_ndeg: 0 },
            elevation_cm: Some(k * 5_000),
        });
    }
    let s = run(&points).unwrap();
    assert_eq!(s.gain_cm, 15_000);
    assert_eq!(s.loss_cm, 0);
}

#[test]
fn track_beyond_span_limit_is_rejected() {
    // Hops between antipodal points add up beyond the selector's span
    // limit of 2^31 cm.
    let mut points = Vec::new();
    for k in 0..12i64 {
        points.push(Waypoint {
            position: Position { lat_ndeg: 0, lon_ndeg: if k % 2 == 0 { 0 } else { 180_000_000_000 } },
            elevation_cm: Some(k * 100),
        });
    }
    assert_eq!(run(&points).unwrap_err(), TrackError::TrackTooLong);
}
