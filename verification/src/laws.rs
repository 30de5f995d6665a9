//! Laws of the round-robin rotation, stated over the index trace
//! that successive selections produce.

use vstd::prelude::*;
use crate::select::{any_enabled, gap, lemma_enabled_within_cycle, lemma_rr_find_some, rr_selected,
    step_idx};

verus! {

/// Index sequence that `steps` successive round-robin selections
/// produce from cursor `c`, each call continuing from the cursor the
/// previous one left.
pub open spec fn rr_trace(e: Seq<bool>, c: int, steps: nat) -> Seq<int>
    decreases steps,
{
    if steps == 0 {
        Seq::empty()
    } else {
        let sel = rr_selected(e, c);
        seq![sel] + rr_trace(e, step_idx(e.len() as int, sel), (steps - 1) as nat)
    }
}

/// Every selection in a trace is an enabled index.
pub proof fn lemma_rr_trace_enabled(e: Seq<bool>, c: int, steps: nat)
    requires
        0 <= c < e.len(),
        any_enabled(e),
    ensures
        rr_trace(e, c, steps).len() == steps,
        forall|k: int|
            0 <= k < steps ==> 0 <= #[trigger] rr_trace(e, c, steps)[k] < e.len() && e[rr_trace(
                e,
                c,
                steps,
            )[k]],
    decreases steps,
{
    if steps > 0 {
        let len = e.len() as int;
        lemma_enabled_within_cycle(e, c);
        lemma_rr_find_some(e, c, e.len());
        let sel = rr_selected(e, c);
        lemma_rr_trace_enabled(e, step_idx(len, sel), (steps - 1) as nat);
    }
}

/// If the selection from `c` is not `j`, the next cursor stands
/// strictly nearer to `j` than `c` did.
proof fn lemma_selection_progress(e: Seq<bool>, c: int, j: int)
    requires
        0 <= c < e.len(),
        0 <= j < e.len(),
        e[j],
        any_enabled(e),
        rr_selected(e, c) != j,
    ensures
        0 <= step_idx(e.len() as int, rr_selected(e, c)) < e.len(),
        gap(e.len() as int, step_idx(e.len() as int, rr_selected(e, c)), j) < gap(
            e.len() as int,
            c,
            j,
        ),
{
    let len = e.len() as int;
    lemma_enabled_within_cycle(e, c);
    lemma_rr_find_some(e, c, e.len());
    let sel = rr_selected(e, c);
    lemma_gap_chain(len, c, sel, j);
}

/// Distances along the cycle add up: going from `c` past `a` and one
/// step further leaves exactly the remaining distance to `j`.
proof fn lemma_gap_chain(len: int, c: int, a: int, j: int)
    requires
        0 <= c < len,
        0 <= a < len,
        0 <= j < len,
        a != j,
        gap(len, c, a) <= gap(len, c, j),
    ensures
        gap(len, step_idx(len, a), j) == gap(len, c, j) - gap(len, c, a) - 1,
{
}

/// A trace long enough to cover the distance to an enabled index
/// selects it at least once.
proof fn lemma_rr_trace_hits(e: Seq<bool>, c: int, j: int, steps: nat)
    requires
        0 <= c < e.len(),
        0 <= j < e.len(),
        e[j],
        any_enabled(e),
        gap(e.len() as int, c, j) < steps,
    ensures
        exists|k: int| 0 <= k < steps && rr_trace(e, c, steps)[k] == j,
    decreases steps,
{
    let len = e.len() as int;
    lemma_enabled_within_cycle(e, c);
    lemma_rr_find_some(e, c, e.len());
    let sel = rr_selected(e, c);
    let trace = rr_trace(e, c, steps);
    if sel == j {
        assert(trace[0] == j);
    } else {
        lemma_selection_progress(e, c, j);
        let c1 = step_idx(len, sel);
        lemma_rr_trace_hits(e, c1, j, (steps - 1) as nat);
        let tail = rr_trace(e, c1, (steps - 1) as nat);
        lemma_rr_trace_enabled(e, c1, (steps - 1) as nat);
        assert(tail.len() == steps - 1);
        let k1 = choose|k: int| 0 <= k < steps - 1 && #[trigger] tail[k] == j;
        assert(trace == seq![sel] + tail);
        assert(trace[k1 + 1] == tail[k1]);
        assert(trace[k1 + 1] == j);
    }
}

/// Round-robin fairness: from any cursor, a window of `n` consecutive
/// selections (`n` the instance count, at least one instance enabled,
/// none flipped meanwhile) picks every enabled index at least once
/// and never picks a disabled one.
pub proof fn lemma_round_robin_window(e: Seq<bool>, c: int)
    requires
        0 <= c < e.len(),
        any_enabled(e),
    ensures
        rr_trace(e, c, e.len()).len() == e.len(),
        forall|k: int|
            0 <= k < e.len() ==> 0 <= #[trigger] rr_trace(e, c, e.len())[k] < e.len() && e[rr_trace(
                e,
                c,
                e.len(),
            )[k]],
        forall|j: int|
            0 <= j < e.len() && #[trigger] e[j] ==> exists|k: int|
                0 <= k < e.len() && rr_trace(e, c, e.len())[k] == j,
{
    lemma_rr_trace_enabled(e, c, e.len());
    assert forall|j: int| 0 <= j < e.len() && #[trigger] e[j] implies exists|k: int|
        0 <= k < e.len() && rr_trace(e, c, e.len())[k] == j by {
        assert(gap(e.len() as int, c, j) < e.len());
        lemma_rr_trace_hits(e, c, j, e.len());
    }
}

/// Serialized selection: the index a call picks and the cursor it
/// leaves are functions of the cursor it observed, so calls that run
/// one at a time produce exactly the trace's index sequence — the
/// first call selects from the starting cursor, and every later call
/// selects from one past the index the call before it picked. No two
/// calls act from the same point of the rotation unless the rotation
/// itself has come round.
pub proof fn lemma_rr_trace_serialized(e: Seq<bool>, c: int, steps: nat)
    requires
        0 <= c < e.len(),
        any_enabled(e),
        steps > 0,
    ensures
        rr_trace(e, c, steps).len() == steps,
        rr_trace(e, c, steps)[0] == rr_selected(e, c),
        forall|k: int|
            0 < k < steps ==> #[trigger] rr_trace(e, c, steps)[k] == rr_selected(
                e,
                step_idx(e.len() as int, rr_trace(e, c, steps)[k - 1]),
            ),
    decreases steps,
{
    let len = e.len() as int;
    let sel = rr_selected(e, c);
    let c1 = step_idx(len, sel);
    let tail = rr_trace(e, c1, (steps - 1) as nat);
    let trace = rr_trace(e, c, steps);
    lemma_rr_trace_enabled(e, c, steps);
    if steps > 1 {
        lemma_enabled_within_cycle(e, c);
        lemma_rr_find_some(e, c, e.len());
        lemma_rr_trace_serialized(e, c1, (steps - 1) as nat);
        assert forall|k: int| 0 < k < steps implies #[trigger] trace[k] == rr_selected(
            e,
            step_idx(len, trace[k - 1]),
        ) by {
            assert(trace[k] == tail[k - 1]);
            if k == 1 {
                assert(tail[0] == rr_selected(e, c1));
            } else {
                assert(tail[k - 1] == rr_selected(e, step_idx(len, tail[k - 2])));
                assert(trace[k - 1] == tail[k - 2]);
            }
        }
    }
}

} // verus!
