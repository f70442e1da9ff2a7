//! Profile rebuild: compacts the surviving points into a fresh
//! sequence whose distance field is segment-relative — the great-circle
//! distance from the immediately preceding survivor, 0 for the first
//! rebuilt point.

use vstd::prelude::*;

use crate::geodesy::hav;
use crate::track::TrackPoint;

verus! {

/// The indices of the points of `s[0..=i]` still marked survived, in
/// increasing order.
pub open spec fn survivor_indices(s: Seq<TrackPoint>, i: int) -> Seq<int>
    decreases i + 1,
{
    if i < 0 {
        Seq::empty()
    } else if s[i].survived {
        survivor_indices(s, i - 1).push(i)
    } else {
        survivor_indices(s, i - 1)
    }
}

/// The survivor indices are exactly the survived positions of `0..=i`,
/// listed in strictly increasing order.
pub proof fn lemma_survivor_indices_shape(s: Seq<TrackPoint>, i: int)
    ensures
        ({
            let idx = survivor_indices(s, i);
            &&& forall|k: int| 0 <= k < idx.len() ==> 0 <= #[trigger] idx[k] <= i
            &&& forall|k: int| 0 <= k < idx.len() ==> s[#[trigger] idx[k]].survived
            &&& forall|k1: int, k2: int|
                0 <= k1 < k2 < idx.len() ==> #[trigger] idx[k1] < #[trigger] idx[k2]
            &&& forall|k: int| 0 <= k < idx.len() ==> k <= #[trigger] idx[k]
            &&& forall|j: int| 0 <= j <= i && s[j].survived ==> #[trigger] idx.contains(j)
        }),
    decreases i + 1,
{
    if i >= 0 {
        lemma_survivor_indices_shape(s, i - 1);
        let prev = survivor_indices(s, i - 1);
        let idx = survivor_indices(s, i);
        if s[i].survived {
            assert(prev.len() <= i) by {
                if prev.len() > 0 {
                    assert(prev.len() - 1 <= prev[prev.len() - 1] <= i - 1);
                }
            }
            assert forall|j: int| 0 <= j <= i && s[j].survived implies #[trigger] idx.contains(j) by {
                if j < i {
                    assert(prev.contains(j));
                    let k = choose|k: int| 0 <= k < prev.len() && prev[k] == j;
                    assert(idx[k] == j);
                } else {
                    assert(idx[idx.len() - 1] == i);
                }
            }
        } else {
            assert forall|j: int| 0 <= j <= i && s[j].survived implies #[trigger] idx.contains(j) by {
                assert(prev.contains(j));
            }
        }
    }
}

/// When the first and last of at least two points are survived, the
/// rebuilt profile keeps them as its first and last entries, so it has
/// at least two points.
pub proof fn lemma_survivors_bracket(s: Seq<TrackPoint>, i: int)
    requires
        1 <= i,
        s[0].survived,
        s[i].survived,
    ensures
        ({
            let idx = survivor_indices(s, i);
            &&& idx.len() >= 2
            &&& idx[0] == 0
            &&& idx[idx.len() - 1] == i
        }),
    decreases i,
{
    lemma_survivor_indices_shape(s, i);
    lemma_survivor_first(s, i);
}

/// When the first point is survived it heads the survivor list.
pub proof fn lemma_survivor_first(s: Seq<TrackPoint>, i: int)
    requires
        0 <= i,
        s[0].survived,
    ensures
        survivor_indices(s, i).len() >= 1,
        survivor_indices(s, i)[0] == 0,
    decreases i,
{
    reveal_with_fuel(survivor_indices, 2);
    if i > 0 {
        lemma_survivor_first(s, i - 1);
    }
}

/// Collects the survivors into a fresh profile: positions and
/// elevations carried over, every point survived, no point yet an
/// extremum, and the distance field re-indexed to the segment distance
/// from the preceding survivor (0 for the first).
pub fn rebuild_profile(points: &Vec<TrackPoint>) -> (out: Vec<TrackPoint>)
    ensures
        ({
            let idx = survivor_indices(points@, points.len() - 1);
            &&& out.len() == idx.len()
            &&& forall|k: int| 0 <= k < out.len() ==> {
                &&& (#[trigger] out[k]).position == points[idx[k]].position
                &&& out[k].elevation_cm == points[idx[k]].elevation_cm
                &&& out[k].survived
                &&& !out[k].is_extremum
                &&& out[k].distance_cm == if k == 0 {
                    0int
                } else {
                    hav(points[idx[k]].position, points[idx[k - 1]].position)
                }
            }
        }),
{
    proof {
        lemma_survivor_indices_shape(points@, points.len() - 1);
    }
    let n = points.len();
    let mut out: Vec<TrackPoint> = Vec::new();
    let mut last: usize = 0;
    let mut i: usize = 0;
    while i < n
        invariant
            0 <= i <= n,
            n == points.len(),
            ({
                let idx = survivor_indices(points@, i - 1);
                &&& out.len() == idx.len()
                &&& forall|k: int| 0 <= k < out.len() ==> {
                    &&& (#[trigger] out[k]).position == points[idx[k]].position
                    &&& out[k].elevation_cm == points[idx[k]].elevation_cm
                    &&& out[k].survived
                    &&& !out[k].is_extremum
                    &&& out[k].distance_cm == if k == 0 {
                        0int
                    } else {
                        hav(points[idx[k]].position, points[idx[k - 1]].position)
                    }
                }
                &&& out.len() > 0 ==> (last == idx[idx.len() - 1] && last < i)
            }),
        decreases n - i,
    {
        proof {
            lemma_survivor_indices_shape(points@, i - 1);
        }
        if points[i].survived {
            let d: u64 = if out.len() == 0 {
                0
            } else {
                crate::geodesy::haversine_distance_cm(&points[i].position, &points[last].position)
            };
            out.push(TrackPoint {
                position: points[i].position,
                distance_cm: d,
                elevation_cm: points[i].elevation_cm,
                survived: true,
                is_extremum: false,
            });
            last = i;
        }
        i = i + 1;
    }
    out
}

} // verus!
