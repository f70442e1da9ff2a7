//! Unit tests of the individual pipeline stages.

use hikea::extremum::select_extrema;
use hikea::filter::{stage1_filter, stage2_filter};
use hikea::geodesy::Position;
use hikea::stats::aggregate_gain_loss;
use hikea::track::TrackPoint;

fn tp(lat_ndeg: i64, elevation_cm: i64) -> TrackPoint {
    TrackPoint {
        position: Position { lat_ndeg, lon_ndeg: 0 },
        distance_cm: 0,
        elevation_cm,
        survived: false,
        is_extremum: false,
    }
}

#[test]
fn zigzag_noise_dies_in_first_filter() {
    // Single-sample zigzags never extend a consistent slope, so only
    // the forced last point survives.
    let points = vec![tp(0, 0), tp(10_000_000, 1_000), tp(20_000_000, 0), tp(30_000_000, 1_000), tp(40_000_000, 0)];
    let (out, count) = stage1_filter(points);
    assert_eq!(count, 1);
    assert!(!out[1].survived);
    assert!(!out[2].survived);
    assert!(!out[3].survived);
    assert!(out[4].survived);
}

#[test]
fn consistent_slope_survives_first_filter() {
    let points = vec![tp(0, 0), tp(10_000_000, 1_000), tp(20_000_000, 2_000), tp(30_000_000, 3_000)];
    let (out, count) = stage1_filter(points);
    assert_eq!(count, 3);
    assert!(out[1].survived);
    assert!(out[2].survived);
    assert!(out[3].survived);
}

#[test]
fn slope_filter_demotes_implausible_grade() {
    // The middle point is 50 m above its neighbor but only about 0.1 m
    // away horizontally: a grade far beyond 70 percent.
    let mut a = tp(0, 0);
    let mut b = tp(1_000, 5_000);
    let mut c = tp(20_000_000, 5_100);
    a.survived = false;
    b.survived = true;
    c.survived = true;
    let points = vec![a, b, c, tp(40_000_000, 5_200)];
    let (out, count) = stage2_filter(points, 70);
    assert!(!out[1].survived);
    assert!(out[2].survived);
    assert_eq!(count, 1);
}

#[test]
fn slope_filter_keeps_gentle_grade() {
    // About 10 m of rise over 1112 m is a 1 percent grade.
    let mut a = tp(0, 0);
    let mut b = tp(10_000_000, 1_000);
    a.survived = false;
    b.survived = true;
    let points = vec![a, b, tp(20_000_000, 2_000)];
    let (out, count) = stage2_filter(points, 70);
    assert!(out[1].survived);
    assert_eq!(count, 1);
}

fn profile_point(elevation_cm: i64, distance_cm: u64) -> TrackPoint {
    TrackPoint {
        position: Position { lat_ndeg: 0, lon_ndeg: 0 },
        distance_cm,
        elevation_cm,
        survived: true,
        is_extremum: false,
    }
}

#[test]
fn selector_marks_deep_deviation_and_is_idempotent() {
    // A V in the (distance, elevation) plane: the bottom deviates far
    // beyond the threshold and is marked; a second run over the output
    // changes nothing.
    let profile = vec![
        profile_point(10_000, 0),
        profile_point(5_000, 0),
        profile_point(0, 0),
        profile_point(5_000, 0),
        profile_point(10_000, 0),
    ];
    let xs: Vec<u64> = vec![0, 100_000, 200_000, 300_000, 400_000];
    let once = select_extrema(profile, &xs, 700);
    let flags_once: Vec<bool> = once.iter().map(|p| p.is_extremum).collect();
    assert_eq!(flags_once, vec![true, false, true, false, true]);
    let twice = select_extrema(once, &xs, 700);
    let flags_twice: Vec<bool> = twice.iter().map(|p| p.is_extremum).collect();
    assert_eq!(flags_twice, flags_once);
}

#[test]
fn selector_leaves_shallow_profile_alone() {
    // Deviations of 2 m stay below the 7 m threshold.
    let profile = vec![
        profile_point(0, 0),
        profile_point(200, 0),
        profile_point(0, 0),
    ];
    let xs: Vec<u64> = vec![0, 100_000, 200_000];
    let marked = select_extrema(profile, &xs, 700);
    let flags: Vec<bool> = marked.iter().map(|p| p.is_extremum).collect();
    assert_eq!(flags, vec![true, false, true]);
}

#[test]
fn aggregator_telescopes_over_extrema() {
    // Gain minus loss equals the elevation difference between the last
    // and the first extremum; points without the flag do not count.
    let mut p0 = profile_point(10_000, 0);
    p0.is_extremum = true;
    let p1 = profile_point(90_000, 0);
    let mut p2 = profile_point(25_000, 0);
    p2.is_extremum = true;
    let mut p3 = profile_point(12_000, 0);
    p3.is_extremum = true;
    let mut p4 = profile_point(20_000, 0);
    p4.is_extremum = true;
    let profile = vec![p0, p1, p2, p3, p4];
    let (gain, loss) = aggregate_gain_loss(&profile);
    assert_eq!(gain, 15_000 + 8_000);
    assert_eq!(loss, 13_000);
    assert_eq!(gain as i64 - loss as i64, 20_000 - 10_000);
}
