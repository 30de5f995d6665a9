//! Selection primitives: the round-robin scan as a mathematical
//! function of the enabled flags and the cursor, and the one random
//! draw the random algorithm needs.

use vstd::prelude::*;
use rand::Rng;

verus! {

/// Whether at least one instance is enabled.
pub open spec fn any_enabled(e: Seq<bool>) -> bool {
    exists|i: int| 0 <= i < e.len() && e[i]
}

/// The cursor position after one step: advance by one, wrapping to
/// the front past the last index.
pub open spec fn step_idx(len: int, c: int) -> int {
    if c + 1 < len {
        c + 1
    } else {
        0
    }
}

/// Number of forward steps from cursor `c` to index `j` around a
/// cycle of length `len`.
pub open spec fn gap(len: int, c: int, j: int) -> int {
    if j >= c {
        j - c
    } else {
        j - c + len
    }
}

/// First enabled index met when scanning forward from `c`, looking at
/// most `fuel` positions.
pub open spec fn rr_find(e: Seq<bool>, c: int, fuel: nat) -> Option<int>
    decreases fuel,
{
    if fuel == 0 {
        None
    } else if 0 <= c < e.len() && e[c] {
        Some(c)
    } else {
        rr_find(e, step_idx(e.len() as int, c), (fuel - 1) as nat)
    }
}

/// The index the round-robin scan selects from cursor `c`: the first
/// enabled index at or after `c`, cyclically.
pub open spec fn rr_selected(e: Seq<bool>, c: int) -> int {
    rr_find(e, c, e.len()).unwrap()
}

/// Stepping the cursor once lowers the distance to any other index by
/// exactly one.
pub proof fn lemma_step_gap(len: int, c: int, j: int)
    requires
        0 <= c < len,
        0 <= j < len,
        j != c,
    ensures
        gap(len, step_idx(len, c), j) == gap(len, c, j) - 1,
{
}

/// The scan finds an enabled index whenever one lies within its fuel,
/// and what it finds is enabled and the nearest enabled index.
pub proof fn lemma_rr_find_some(e: Seq<bool>, c: int, fuel: nat)
    requires
        0 <= c < e.len(),
        exists|j: int| 0 <= j < e.len() && e[j] && gap(e.len() as int, c, j) < fuel,
    ensures
        rr_find(e, c, fuel) is Some,
        ({
            let sel = rr_find(e, c, fuel).unwrap();
            &&& 0 <= sel < e.len()
            &&& e[sel]
            &&& gap(e.len() as int, c, sel) < fuel
            &&& forall|j: int|
                0 <= j < e.len() && #[trigger] e[j] ==> gap(e.len() as int, c, sel) <= gap(
                    e.len() as int,
                    c,
                    j,
                )
        }),
    decreases fuel,
{
    let len = e.len() as int;
    if e[c] {
        assert(rr_find(e, c, fuel) == Some(c));
    } else {
        let j0 = choose|j: int| 0 <= j < len && e[j] && gap(len, c, j) < fuel;
        lemma_step_gap(len, c, j0);
        let c1 = step_idx(len, c);
        lemma_rr_find_some(e, c1, (fuel - 1) as nat);
        let sel = rr_find(e, c1, (fuel - 1) as nat).unwrap();
        assert(rr_find(e, c, fuel) == Some(sel));
        lemma_step_gap(len, c, sel);
        assert forall|j: int| 0 <= j < len && #[trigger] e[j] implies gap(len, c, sel) <= gap(
            len,
            c,
            j,
        ) by {
            lemma_step_gap(len, c, j);
        }
    }
}

/// From any cursor, some enabled index lies within one full cycle of
/// the scan.
pub(crate) proof fn lemma_enabled_within_cycle(e: Seq<bool>, c: int)
    requires
        0 <= c < e.len(),
        any_enabled(e),
    ensures
        exists|j: int| 0 <= j < e.len() && e[j] && gap(e.len() as int, c, j) < e.len(),
{
    let j0 = choose|j: int| 0 <= j < e.len() && e[j];
    assert(gap(e.len() as int, c, j0) < e.len());
}

/// Relies on rand's `Rng::gen_range` over `0..n` (through
/// `rand::thread_rng`): it panics on an empty range and otherwise
/// returns a value drawn from the range, so the result is below `n`.
/// Nothing more is assumed of a random draw.
#[verifier::external_body]
pub(crate) fn random_index(n: usize) -> (r: usize)
    requires
        n > 0,
    ensures
        r < n,
{
    rand::thread_rng().gen_range(0..n)
}

} // verus!
