//! The pointer-motion sampler: a multi-waypoint path over wall-clock time.
//!
//! A path of `n` waypoints has `n - 1` segments.  Each segment receives a
//! share of the total duration proportional to its length ([`plan_path`]);
//! within a segment the caller samples its clock as often as the scheduler
//! allows, and each sample names an interpolated position
//! ([`sample_position`]).  The caller owns the clock and the socket: it
//! issues one move per sample, starting each segment with an exact move to
//! the segment's source waypoint, and finishing it once the segment's
//! duration has elapsed, where the sample is exactly the target waypoint.
//!
//! Whole pixels and whole milliseconds throughout; positions round toward
//! the segment's source.

use vstd::prelude::*;

use crate::geom::Point;

verus! {

/// The squared Euclidean distance between two points.
pub open spec fn spec_dist2(a: Point, b: Point) -> int {
    (a.x - b.x) * (a.x - b.x) + (a.y - b.y) * (a.y - b.y)
}

/// `r` is the integer square root of `n`: the largest integer whose square
/// is at most `n`.
pub open spec fn is_isqrt_of(r: int, n: int) -> bool {
    r * r <= n < (r + 1) * (r + 1)
}

/// The integer square root, for values below `2^126`.
pub fn isqrt(n: u128) -> (r: u64)
    requires
        n < 0x4000_0000_0000_0000_0000_0000_0000_0000,
    ensures
        is_isqrt_of(r as int, n as int),
{
    let mut lo: u64 = 0;
    let mut hi: u64 = 0x8000_0000_0000_0000;
    proof {
        assert((0x8000_0000_0000_0000 as int) * (0x8000_0000_0000_0000 as int) > n as int)
            by (nonlinear_arith)
            requires
                n < 0x4000_0000_0000_0000_0000_0000_0000_0000,
        ;
    }
    while hi - lo > 1
        invariant
            lo < hi <= 0x8000_0000_0000_0000,
            (lo as int) * (lo as int) <= n as int,
            (hi as int) * (hi as int) > n as int,
        decreases hi - lo,
    {
        let mid = lo + (hi - lo) / 2;
        proof {
            assert((mid as int) * (mid as int) < 0x1_0000_0000_0000_0000_0000_0000_0000_0000)
                by (nonlinear_arith)
                requires
                    0 <= (mid as int) && (mid as int) <= 0x8000_0000_0000_0000,
            ;
        }
        if (mid as u128) * (mid as u128) <= n {
            lo = mid;
        } else {
            hi = mid;
        }
    }
    proof {
        assert(hi == lo + 1);
    }
    lo
}

/// The Euclidean distance between two points, rounded down to a whole
/// pixel.
pub fn dist(a: Point, b: Point) -> (r: u64)
    requires
        a.in_range(),
        b.in_range(),
    ensures
        is_isqrt_of(r as int, spec_dist2(a, b)),
        r <= 0x2_0000_0000,
{
    let dx: u64 = if a.x >= b.x {
        (a.x - b.x) as u64
    } else {
        (b.x - a.x) as u64
    };
    let dy: u64 = if a.y >= b.y {
        (a.y - b.y) as u64
    } else {
        (b.y - a.y) as u64
    };
    proof {
        assert((dx as int) * (dx as int) == (a.x - b.x) * (a.x - b.x)) by (nonlinear_arith)
            requires
                dx as int == if a.x >= b.x {
                    a.x - b.x
                } else {
                    b.x - a.x
                },
        ;
        assert((dy as int) * (dy as int) == (a.y - b.y) * (a.y - b.y)) by (nonlinear_arith)
            requires
                dy as int == if a.y >= b.y {
                    a.y - b.y
                } else {
                    b.y - a.y
                },
        ;
        assert((dx as int) * (dx as int) <= 0x1_0000_0000_0000_0000) by (nonlinear_arith)
            requires
                0 <= (dx as int) && (dx as int) <= 0x1_0000_0000,
        ;
        assert((dy as int) * (dy as int) <= 0x1_0000_0000_0000_0000) by (nonlinear_arith)
            requires
                0 <= (dy as int) && (dy as int) <= 0x1_0000_0000,
        ;
    }
    let d2: u128 = (dx as u128) * (dx as u128) + (dy as u128) * (dy as u128);
    let r = isqrt(d2);
    proof {
        assert(r as int <= 0x2_0000_0000) by (nonlinear_arith)
            requires
                (r as int) * (r as int) <= d2 as int,
                d2 as int <= 0x2_0000_0000_0000_0000,
                r as int >= 0,
        ;
    }
    r
}

/// The sum of a sequence of segment lengths.
pub open spec fn seq_sum(s: Seq<u64>) -> int
    decreases s.len(),
{
    if s.len() == 0 {
        0
    } else {
        seq_sum(s.drop_last()) + s.last()
    }
}

/// A sum of lengths is at least each of its elements, and never negative.
proof fn lemma_seq_sum_bounds(s: Seq<u64>)
    ensures
        seq_sum(s) >= 0,
        forall|j: int| 0 <= j < s.len() ==> s[j] <= seq_sum(s),
    decreases s.len(),
{
    if s.len() > 0 {
        lemma_seq_sum_bounds(s.drop_last());
        assert forall|j: int| 0 <= j < s.len() implies s[j] <= seq_sum(s) by {
            if j < s.len() - 1 {
                assert(s.drop_last()[j] == s[j]);
            }
        }
    }
}

/// How a path's total duration is split over its segments.
///
/// `lengths[i]` is the length of the segment from waypoint `i` to waypoint
/// `i + 1`; `durations[i]` is that segment's share of the total duration,
/// proportional to its length.  When every waypoint coincides the total
/// length is zero, every share is zero, and the caller issues exactly one
/// move.
#[derive(Clone, Debug, PartialEq, Eq)]
pub struct PathPlan {
    pub lengths: Vec<u64>,
    pub durations: Vec<u64>,
    pub total_length: u64,
}

/// Splits `total_millis` over the path's segments: each segment's share is
/// `total_millis * length / total_length`, rounded down.
pub fn plan_path(waypoints: &Vec<Point>, total_millis: u64) -> (r: PathPlan)
    requires
        1 <= waypoints@.len() <= 0x10_0000,
        forall|i: int| 0 <= i < waypoints@.len() ==> (#[trigger] waypoints@[i]).in_range(),
    ensures
        r.lengths@.len() == waypoints@.len() - 1,
        r.durations@.len() == waypoints@.len() - 1,
        forall|i: int|
            0 <= i < r.lengths@.len() ==> is_isqrt_of(
                r.lengths@[i] as int,
                spec_dist2(waypoints@[i], waypoints@[i + 1]),
            ),
        r.total_length == seq_sum(r.lengths@),
        r.total_length > 0 ==> forall|i: int|
            0 <= i < r.durations@.len() ==> r.durations@[i] == (total_millis as int) * (
            r.lengths@[i] as int) / (r.total_length as int),
        r.total_length == 0 ==> forall|i: int|
            0 <= i < r.durations@.len() ==> r.durations@[i] == 0,
{
    let n = waypoints.len();
    let mut lengths: Vec<u64> = Vec::new();
    let mut total_length: u64 = 0;
    let mut i: usize = 0;
    while i < n - 1
        invariant
            1 <= n <= 0x10_0000,
            n == waypoints@.len(),
            0 <= i <= n - 1,
            lengths@.len() == i,
            forall|j: int| 0 <= j < n ==> (#[trigger] waypoints@[j]).in_range(),
            forall|j: int|
                0 <= j < i ==> is_isqrt_of(
                    lengths@[j] as int,
                    spec_dist2(waypoints@[j], waypoints@[j + 1]),
                ),
            forall|j: int| 0 <= j < i ==> lengths@[j] <= 0x2_0000_0000,
            total_length == seq_sum(lengths@),
            total_length <= i * 0x2_0000_0000,
        decreases n - 1 - i,
    {
        let d = dist(waypoints[i], waypoints[i + 1]);
        let ghost pre = lengths@;
        lengths.push(d);
        proof {
            assert(lengths@.drop_last() =~= pre);
        }
        total_length = total_length + d;
        i = i + 1;
    }
    proof {
        lemma_seq_sum_bounds(lengths@);
    }
    let mut durations: Vec<u64> = Vec::new();
    let mut k: usize = 0;
    while k < n - 1
        invariant
            1 <= n,
            n - 1 == lengths@.len(),
            0 <= k <= n - 1,
            durations@.len() == k,
            total_length == seq_sum(lengths@),
            forall|j: int| 0 <= j < lengths@.len() ==> lengths@[j] <= total_length,
            total_length > 0 ==> forall|j: int|
                0 <= j < k ==> durations@[j] == (total_millis as int) * (lengths@[j] as int) / (
                total_length as int),
            total_length == 0 ==> forall|j: int| 0 <= j < k ==> durations@[j] == 0,
        decreases n - 1 - k,
    {
        if total_length == 0 {
            durations.push(0);
        } else {
            let len_k = lengths[k];
            proof {
                assert((total_millis as int) * (len_k as int)
                    < 0x1_0000_0000_0000_0000_0000_0000_0000_0000) by (nonlinear_arith)
                    requires
                        0 <= (total_millis as int) && (total_millis as int) <= 0xffff_ffff_ffff_ffff,
                        0 <= (len_k as int) && (len_k as int) <= 0xffff_ffff_ffff_ffff,
                ;
                assert((total_millis as int) * (len_k as int) / (total_length as int)
                    <= total_millis as int) by (nonlinear_arith)
                    requires
                        0 < total_length as int,
                        0 <= (len_k as int) && (len_k as int) <= (total_length as int),
                        0 <= total_millis as int,
                ;
                assert((total_millis as int) * (len_k as int) >= 0) by (nonlinear_arith)
                    requires
                        0 <= len_k as int,
                        0 <= total_millis as int,
                ;
            }
            let share = ((total_millis as u128) * (len_k as u128) / (total_length as u128)) as u64;
            proof {
                assert((total_millis as int) * (len_k as int) / (total_length as int)
                    <= total_millis as int) by (nonlinear_arith)
                    requires
                        0 < total_length as int,
                        0 <= (len_k as int) && (len_k as int) <= (total_length as int),
                        0 <= total_millis as int,
                ;
                assert((total_millis as int) * (len_k as int) >= 0) by (nonlinear_arith)
                    requires
                        0 <= len_k as int,
                        0 <= total_millis as int,
                ;
            }
            durations.push(share);
        }
        k = k + 1;
    }
    PathPlan { lengths, durations, total_length }
}

/// The signed offset a sample moves along one axis: the whole displacement
/// `d` scaled by `elapsed / duration`, rounded toward zero (toward the
/// segment's source).
pub open spec fn spec_lerp_off(d: int, elapsed: int, duration: int) -> int {
    if d >= 0 {
        d * elapsed / duration
    } else {
        -((-d) * elapsed / duration)
    }
}

/// The position a sample names, `elapsed` milliseconds into a segment from
/// `from` to `to` lasting `duration` milliseconds.
///
/// At or past the segment's duration — and always when the duration is
/// zero — the sample is exactly `to`, so the last move of a segment lands
/// precisely on its target waypoint.  At zero elapsed time it is exactly
/// `from`.  In between it is the linear interpolation of the two, the
/// fraction `elapsed / duration` clamped to one, each axis rounded toward
/// `from`.
pub fn sample_position(from: Point, to: Point, elapsed_millis: u64, duration_millis: u64) -> (p:
    Point)
    requires
        from.in_range(),
        to.in_range(),
    ensures
        elapsed_millis >= duration_millis ==> p == to,
        elapsed_millis < duration_millis ==> p == (Point {
            x: (from.x + spec_lerp_off(to.x - from.x, elapsed_millis as int, duration_millis as int)) as i64,
            y: (from.y + spec_lerp_off(to.y - from.y, elapsed_millis as int, duration_millis as int)) as i64,
        }),
        elapsed_millis == 0 ==> p == from || p == to,
{
    if elapsed_millis >= duration_millis {
        return to;
    }
    let x = lerp_axis(from.x, to.x, elapsed_millis, duration_millis);
    let y = lerp_axis(from.y, to.y, elapsed_millis, duration_millis);
    Point { x, y }
}

/// One axis of [`sample_position`], for `elapsed < duration`.
fn lerp_axis(from: i64, to: i64, elapsed: u64, duration: u64) -> (r: i64)
    requires
        -0x8000_0000 <= from <= 0x8000_0000,
        -0x8000_0000 <= to <= 0x8000_0000,
        elapsed < duration,
    ensures
        r == from + spec_lerp_off(to - from, elapsed as int, duration as int),
        elapsed == 0 ==> r == from,
{
    if to >= from {
        let d: u64 = (to - from) as u64;
        proof {
            assert((d as int) * (elapsed as int) < 0x1_0000_0000_0000_0000_0000_0000_0000_0000)
                by (nonlinear_arith)
                requires
                    0 <= (d as int) && (d as int) <= 0xffff_ffff_ffff_ffff,
                    0 <= (elapsed as int) && (elapsed as int) <= 0xffff_ffff_ffff_ffff,
            ;
        }
        let off: u64 = ((d as u128) * (elapsed as u128) / (duration as u128)) as u64;
        proof {
            assert((d as int) * (elapsed as int) / (duration as int) <= d as int)
                by (nonlinear_arith)
                requires
                    0 <= (elapsed as int) && (elapsed as int) < (duration as int),
                    0 <= d as int,
            ;
            assert((d as int) * (elapsed as int) >= 0) by (nonlinear_arith)
                requires
                    0 <= d as int,
                    0 <= elapsed as int,
            ;
            assert(elapsed == 0 ==> (d as int) * (elapsed as int) == 0) by (nonlinear_arith);
        }
        from + (off as i64)
    } else {
        let d: u64 = (from - to) as u64;
        proof {
            assert((d as int) * (elapsed as int) < 0x1_0000_0000_0000_0000_0000_0000_0000_0000)
                by (nonlinear_arith)
                requires
                    0 <= (d as int) && (d as int) <= 0xffff_ffff_ffff_ffff,
                    0 <= (elapsed as int) && (elapsed as int) <= 0xffff_ffff_ffff_ffff,
            ;
        }
        let off: u64 = ((d as u128) * (elapsed as u128) / (duration as u128)) as u64;
        proof {
            assert((d as int) * (elapsed as int) / (duration as int) <= d as int)
                by (nonlinear_arith)
                requires
                    0 <= (elapsed as int) && (elapsed as int) < (duration as int),
                    0 <= d as int,
            ;
            assert((d as int) * (elapsed as int) >= 0) by (nonlinear_arith)
                requires
                    0 <= d as int,
                    0 <= elapsed as int,
            ;
            assert(elapsed == 0 ==> (d as int) * (elapsed as int) == 0) by (nonlinear_arith);
        }
        from - (off as i64)
    }
}

/// A plan never allocates more than the caller's total duration: with each
/// segment's share `total * length / total_length` rounded down, the shares
/// sum to at most the total.
pub proof fn lemma_plan_budget(
    lengths: Seq<u64>,
    durations: Seq<u64>,
    total_millis: u64,
    total_length: u64,
)
    requires
        total_length == seq_sum(lengths),
        total_length > 0,
        durations.len() == lengths.len(),
        forall|i: int|
            0 <= i < durations.len() ==> durations[i] == (total_millis as int) * (
            lengths[i] as int) / (total_length as int),
    ensures
        seq_sum(durations) <= total_millis,
{
    lemma_plan_budget_aux(lengths, durations, total_millis as int, total_length as int);
    assert((total_millis as int) * (total_length as int) / (total_length as int)
        == total_millis as int) by (nonlinear_arith)
        requires
            total_length as int > 0,
    ;
}

/// The shares of a prefix sum to at most the rounded-down share of the
/// prefix's combined length.
proof fn lemma_plan_budget_aux(lengths: Seq<u64>, durations: Seq<u64>, t: int, l: int)
    requires
        l > 0,
        t >= 0,
        durations.len() == lengths.len(),
        forall|i: int|
            0 <= i < durations.len() ==> durations[i] == t * (lengths[i] as int) / l,
    ensures
        seq_sum(durations) <= t * seq_sum(lengths) / l,
    decreases lengths.len(),
{
    if lengths.len() == 0 {
        assert(t * 0 / l == 0) by (nonlinear_arith)
            requires
                l > 0,
        ;
    } else {
        let lp = lengths.drop_last();
        let dp = durations.drop_last();
        assert(forall|i: int| 0 <= i < dp.len() ==> dp[i] == durations[i]);
        lemma_plan_budget_aux(lp, dp, t, l);
        let a = t * seq_sum(lp);
        let b = t * (lengths.last() as int);
        assert(seq_sum(lp) >= 0) by {
            lemma_seq_sum_bounds(lp);
        }
        assert(a >= 0) by (nonlinear_arith)
            requires
                t >= 0,
                seq_sum(lp) >= 0,
                a == t * seq_sum(lp),
        ;
        assert(b >= 0) by (nonlinear_arith)
            requires
                t >= 0,
                lengths.last() as int >= 0,
                b == t * (lengths.last() as int),
        ;
        assert(a / l + b / l <= (a + b) / l) by (nonlinear_arith)
            requires
                l > 0,
                a >= 0,
                b >= 0,
        ;
        assert(a + b == t * seq_sum(lengths)) by (nonlinear_arith)
            requires
                a == t * seq_sum(lp),
                b == t * (lengths.last() as int),
                seq_sum(lengths) == seq_sum(lp) + lengths.last(),
        ;
    }
}

} // verus!
