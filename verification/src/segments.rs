//! The cyclic segment plan: sanitization and cursor arithmetic.
//!
//! A plan is an ordered list of [`WorkSegment`]s; the cursor walks the
//! list as a ring, repeating each segment `repeat` times before moving
//! to the next one and wrapping from the last back to the first.

use vstd::prelude::*;
use vstd::arithmetic::div_mod::{lemma_mod_self_0, lemma_small_mod};

use crate::models::WorkSegment;

verus! {

/// A single segment is well formed when every field sits in its
/// documented range: minutes in 1..=120, repeat in 1..=12.
pub open spec fn seg_wf(s: WorkSegment) -> bool {
    &&& 1 <= s.work_minutes <= 120
    &&& 1 <= s.break_minutes <= 120
    &&& 1 <= s.repeat <= 12
}

/// Every segment of the plan is well formed.
pub open spec fn plan_wf(ss: Seq<WorkSegment>) -> bool {
    forall|i: int| 0 <= i < ss.len() ==> seg_wf(#[trigger] ss[i])
}

/// Clamp one segment into range: minutes into [1, 120], repeat into [1, 12].
pub open spec fn spec_clamp_segment(s: WorkSegment) -> WorkSegment {
    WorkSegment {
        work_minutes: clamp_u32(s.work_minutes, 1, 120),
        break_minutes: clamp_u32(s.break_minutes, 1, 120),
        repeat: clamp_u32(s.repeat, 1, 12),
    }
}

pub open spec fn clamp_u32(v: u32, lo: u32, hi: u32) -> u32 {
    if v < lo {
        lo
    } else if v > hi {
        hi
    } else {
        v
    }
}

/// A value clamped to at least one, mirroring the defensive clamps of
/// the engine's duration lookups.
pub open spec fn max1(v: u32) -> u32 {
    if v >= 1 {
        v
    } else {
        1
    }
}

/// A segment index clamped into the plan's range (zero for an empty
/// plan), mirroring the engine's defensive index normalization.
pub open spec fn norm_index(ss: Seq<WorkSegment>, idx: int) -> int {
    if ss.len() == 0 || idx < 0 {
        0
    } else if idx < ss.len() {
        idx
    } else {
        ss.len() - 1
    }
}

/// A cursor (segment index, iteration within the segment) is valid for
/// a non-empty plan when the index is in range and the iteration has
/// not run past the segment's repeat count.
pub open spec fn cursor_wf(ss: Seq<WorkSegment>, idx: int, it: int) -> bool {
    &&& 0 <= idx < ss.len()
    &&& 0 <= it < ss[idx].repeat
}

/// One step of the ring: repeat the same segment while iterations are
/// left, otherwise move to the next segment (wrapping) and restart the
/// iteration count. This is the sole place wraparound is defined.
pub open spec fn spec_advance(ss: Seq<WorkSegment>, idx: int, it: int) -> (int, int) {
    if it + 1 < ss[idx].repeat {
        (idx, it + 1)
    } else {
        ((idx + 1) % (ss.len() as int), 0)
    }
}

/// Total number of phase cycles contributed by the first `n` segments.
pub open spec fn repeat_sum(ss: Seq<WorkSegment>, n: int) -> int
    decreases n,
{
    if n <= 0 {
        0
    } else {
        repeat_sum(ss, n - 1) + ss[n - 1].repeat
    }
}

/// Position of a cursor in the flattened ring walk: how many cycles
/// precede it within one full revolution of the plan.
pub open spec fn cursor_rank(ss: Seq<WorkSegment>, idx: int, it: int) -> int {
    repeat_sum(ss, idx) + it
}

proof fn lemma_repeat_sum_bounds(ss: Seq<WorkSegment>, n: int)
    requires
        plan_wf(ss),
        0 <= n <= ss.len(),
    ensures
        n <= repeat_sum(ss, n) <= 12 * n,
    decreases n,
{
    if n > 0 {
        lemma_repeat_sum_bounds(ss, n - 1);
    }
}

proof fn lemma_repeat_sum_monotone(ss: Seq<WorkSegment>, a: int, b: int)
    requires
        plan_wf(ss),
        0 <= a <= b <= ss.len(),
    ensures
        repeat_sum(ss, a) + (b - a) <= repeat_sum(ss, b),
    decreases b - a,
{
    if a < b {
        lemma_repeat_sum_monotone(ss, a, b - 1);
    }
}

/// A valid cursor's rank lies strictly inside one revolution.
pub proof fn lemma_cursor_rank_in_range(ss: Seq<WorkSegment>, idx: int, it: int)
    requires
        plan_wf(ss),
        ss.len() > 0,
        cursor_wf(ss, idx, it),
    ensures
        0 <= cursor_rank(ss, idx, it) < repeat_sum(ss, ss.len() as int),
{
    lemma_repeat_sum_bounds(ss, idx);
    lemma_repeat_sum_monotone(ss, idx + 1, ss.len() as int);
}

/// Advancing a valid cursor is total and walks the segments in order:
/// the cursor stays valid, and its rank moves to the next position of
/// the ring, wrapping to the front after the last iteration of the
/// last segment. Repeated application therefore visits every segment
/// of the plan, in order, `repeat` times each.
pub proof fn lemma_advance_cycles(ss: Seq<WorkSegment>, idx: int, it: int)
    requires
        plan_wf(ss),
        ss.len() > 0,
        cursor_wf(ss, idx, it),
    ensures
        cursor_wf(ss, spec_advance(ss, idx, it).0, spec_advance(ss, idx, it).1),
        cursor_rank(ss, spec_advance(ss, idx, it).0, spec_advance(ss, idx, it).1) == (
        cursor_rank(ss, idx, it) + 1) % repeat_sum(ss, ss.len() as int),
{
    let n = ss.len() as int;
    let total = repeat_sum(ss, n);
    lemma_cursor_rank_in_range(ss, idx, it);
    if it + 1 < ss[idx].repeat {
        lemma_cursor_rank_in_range(ss, idx, it + 1);
        lemma_small_mod((cursor_rank(ss, idx, it) + 1) as nat, total as nat);
    } else if idx + 1 < n {
        assert(repeat_sum(ss, idx + 1) == repeat_sum(ss, idx) + ss[idx].repeat);
        assert((idx + 1) % n == idx + 1) by {
            lemma_small_mod((idx + 1) as nat, n as nat);
        }
        lemma_cursor_rank_in_range(ss, idx + 1, 0);
        assert(it + 1 == ss[idx].repeat);
        assert(cursor_rank(ss, idx, it) + 1 == cursor_rank(ss, idx + 1, 0));
        lemma_small_mod((cursor_rank(ss, idx, it) + 1) as nat, total as nat);
    } else {
        assert(idx + 1 == n);
        assert(n % n == 0) by {
            lemma_mod_self_0(n);
        }
        assert(repeat_sum(ss, n) == repeat_sum(ss, idx) + ss[idx].repeat);
        assert(cursor_rank(ss, idx, it) + 1 == total);
        lemma_mod_self_0(total);
        lemma_cursor_rank_in_range(ss, 0, 0);
    }
}

/// Clamp every segment of a configured plan into its documented
/// ranges. A clamped segment always has positive work and break
/// lengths, so the ring can never contain a zero-length step.
pub fn sanitize_segments(segments: Vec<WorkSegment>) -> (r: Vec<WorkSegment>)
    ensures
        r@.len() == segments@.len(),
        forall|i: int| 0 <= i < r@.len() ==> r@[i] == spec_clamp_segment(segments@[i]),
        plan_wf(r@),
{
    let mut out: Vec<WorkSegment> = Vec::new();
    let mut k: usize = 0;
    while k < segments.len()
        invariant
            0 <= k <= segments@.len(),
            out@.len() == k,
            forall|i: int| 0 <= i < k ==> out@[i] == spec_clamp_segment(segments@[i]),
        decreases segments@.len() - k,
    {
        let s = segments[k];
        let work_minutes = if s.work_minutes < 1 {
            1
        } else if s.work_minutes > 120 {
            120
        } else {
            s.work_minutes
        };
        let break_minutes = if s.break_minutes < 1 {
            1
        } else if s.break_minutes > 120 {
            120
        } else {
            s.break_minutes
        };
        let repeat = if s.repeat < 1 {
            1
        } else if s.repeat > 12 {
            12
        } else {
            s.repeat
        };
        out.push(WorkSegment { work_minutes, break_minutes, repeat });
        k = k + 1;
    }
    out
}

} // verus!
