//! Verified core of a trail-suggestion service: it reduces a noisy,
//! densely sampled elevation track to a trustworthy summary (length,
//! cumulative gain and loss, elevation statistics, and a simplified
//! elevation profile).
//!
//! The pipeline runs in fixed-point units: coordinates in nanodegrees,
//! distances and elevations in centimeters.  Only the great-circle
//! distance itself is computed by the `geo` crate, behind one trusted
//! wrapper in `geodesy`.

pub mod annotate;
pub mod arith;
pub mod deviation;
pub mod extremum;
pub mod filter;
pub mod geodesy;
pub mod listenbrainz;
pub mod pipeline;
pub mod rebuild;
pub mod stats;
pub mod suggestion;
pub mod track;
pub mod web;
