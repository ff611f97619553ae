//! Streaming point decimation.
//!
//! Points that land too close to the last *kept* point are dropped, so the
//! stored stroke density is independent of how fast the platform samples the
//! pointer. The threshold scales with the device-pixel ratio, and the filter
//! is idempotent: running it over its own output keeps every point.

use vstd::prelude::*;
use crate::geom::{dist_at_least, dist_sq, Point};

verus! {

/// The keep threshold, as a fixed-point length: two device pixels, scaled
/// by the device-pixel ratio.
pub open spec fn keep_threshold(scale_factor: int) -> int {
    2 * scale_factor
}

/// A candidate is kept when there is no kept point yet, or when it lies at
/// least `threshold` away from the last kept point (inclusive on keep).
pub open spec fn should_keep_spec(candidate: Point, last_kept: Option<Point>, threshold: int) -> bool {
    match last_kept {
        Option::None => true,
        Option::Some(lk) => dist_sq(candidate, lk) >= threshold * threshold,
    }
}

/// Decide whether `candidate` survives decimation against the last kept
/// point, with the threshold of two device pixels at `scale_factor`.
pub fn should_keep(candidate: Point, last_kept: Option<Point>, scale_factor: i64) -> (r: bool)
    requires
        candidate.wf(),
        match last_kept {
            Option::None => true,
            Option::Some(lk) => lk.wf(),
        },
        1 <= scale_factor <= crate::fixed::SCALE_LIMIT,
    ensures
        r == should_keep_spec(candidate, last_kept, keep_threshold(scale_factor as int)),
{
    match last_kept {
        Option::None => true,
        Option::Some(lk) => dist_at_least(candidate, lk, 2 * scale_factor),
    }
}

/// What the filter leaves of `points` when the last kept point so far is
/// `last`: a single pass, comparing each point only against the last one
/// kept, never against the last one seen.
pub open spec fn decimate_from(points: Seq<Point>, last: Option<Point>, threshold: int) -> Seq<Point>
    decreases points.len(),
{
    if points.len() == 0 {
        Seq::empty()
    } else {
        let p = points[0];
        if should_keep_spec(p, last, threshold) {
            seq![p] + decimate_from(points.skip(1), Option::Some(p), threshold)
        } else {
            decimate_from(points.skip(1), last, threshold)
        }
    }
}

/// The filter over a whole sequence, starting with no kept point.
pub open spec fn decimate_spec(points: Seq<Point>, threshold: int) -> Seq<Point> {
    decimate_from(points, Option::None, threshold)
}

/// A sequence is spaced when each of its points would be kept against its
/// predecessor (or against `last` for the first point).
pub open spec fn spaced_from(s: Seq<Point>, last: Option<Point>, threshold: int) -> bool
    decreases s.len(),
{
    s.len() == 0 || (should_keep_spec(s[0], last, threshold)
        && spaced_from(s.skip(1), Option::Some(s[0]), threshold))
}

/// What the filter emits is spaced: consecutive survivors are at least the
/// threshold apart.
pub proof fn lemma_decimate_spaced(points: Seq<Point>, last: Option<Point>, threshold: int)
    ensures
        spaced_from(decimate_from(points, last, threshold), last, threshold),
    decreases points.len(),
{
    if points.len() == 0 {
    } else {
        let p = points[0];
        if should_keep_spec(p, last, threshold) {
            lemma_decimate_spaced(points.skip(1), Option::Some(p), threshold);
            let d = decimate_from(points.skip(1), Option::Some(p), threshold);
            assert((seq![p] + d).skip(1) =~= d);
        } else {
            lemma_decimate_spaced(points.skip(1), last, threshold);
        }
    }
}

/// The filter keeps a spaced sequence whole.
pub proof fn lemma_decimate_of_spaced(s: Seq<Point>, last: Option<Point>, threshold: int)
    requires
        spaced_from(s, last, threshold),
    ensures
        decimate_from(s, last, threshold) == s,
    decreases s.len(),
{
    if s.len() == 0 {
        assert(decimate_from(s, last, threshold) =~= s);
    } else {
        let p = s[0];
        lemma_decimate_of_spaced(s.skip(1), Option::Some(p), threshold);
        assert(decimate_from(s, last, threshold) =~= s);
    }
}

/// Decimation is idempotent: filtering an already-filtered sequence with
/// the same threshold yields the identical sequence.
pub proof fn lemma_decimate_idempotent(points: Seq<Point>, threshold: int)
    ensures
        decimate_spec(decimate_spec(points, threshold), threshold)
            == decimate_spec(points, threshold),
{
    lemma_decimate_spaced(points, Option::None, threshold);
    lemma_decimate_of_spaced(decimate_spec(points, threshold), Option::None, threshold);
}

/// Filter a whole point sequence in one pass, keeping each point only if it
/// lies at least two device pixels (at `scale_factor`) from the last point
/// kept. Rejected points are discarded, not buffered.
pub fn decimate_points(points: &Vec<Point>, scale_factor: i64) -> (r: Vec<Point>)
    requires
        forall|i: int| 0 <= i < points@.len() ==> (#[trigger] points@[i]).wf(),
        1 <= scale_factor <= crate::fixed::SCALE_LIMIT,
    ensures
        r@ == decimate_spec(points@, keep_threshold(scale_factor as int)),
{
    let ghost thr: int = keep_threshold(scale_factor as int);
    let mut kept: Vec<Point> = Vec::new();
    let mut i: usize = 0;
    proof {
        assert(points@.skip(0) =~= points@);
        assert(kept@ + decimate_spec(points@, thr) =~= decimate_spec(points@, thr));
    }
    while i < points.len()
        invariant
            forall|j: int| 0 <= j < points@.len() ==> (#[trigger] points@[j]).wf(),
            1 <= scale_factor <= crate::fixed::SCALE_LIMIT,
            thr == keep_threshold(scale_factor as int),
            0 <= i <= points@.len(),
            forall|j: int| 0 <= j < kept@.len() ==> (#[trigger] kept@[j]).wf(),
            kept@ + decimate_from(points@.skip(i as int), last_of(kept@), thr)
                == decimate_spec(points@, thr),
        decreases points@.len() - i,
    {
        let p = points[i];
        let last: Option<Point> = if kept.len() == 0 {
            Option::None
        } else {
            Option::Some(kept[kept.len() - 1])
        };
        let ghost before = kept@;
        proof {
            assert(points@.skip(i as int)[0] == points@[i as int]);
            assert(points@.skip(i as int).skip(1) =~= points@.skip(i as int + 1));
        }
        if should_keep(p, last, scale_factor) {
            kept.push(p);
            proof {
                assert(kept@ =~= before + seq![p]);
                assert(last_of(kept@) == Option::Some(p));
                assert(before + (seq![p] + decimate_from(points@.skip(i as int + 1), Option::Some(p), thr))
                    =~= kept@ + decimate_from(points@.skip(i as int + 1), Option::Some(p), thr));
            }
        }
        i = i + 1;
    }
    proof {
        assert(points@.skip(points@.len() as int) =~= Seq::<Point>::empty());
        assert(kept@ + Seq::<Point>::empty() =~= kept@);
    }
    kept
}

/// The last element of a sequence, if any: the "last kept point" of a
/// partially built result.
pub open spec fn last_of(s: Seq<Point>) -> Option<Point> {
    if s.len() == 0 {
        Option::None
    } else {
        Option::Some(s[s.len() - 1])
    }
}

} // verus!
