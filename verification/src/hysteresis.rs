//! The health-check hysteresis rule: disable fast on one failed
//! probe, re-enable only after two consecutive successful probes.

use vstd::prelude::*;

verus! {

/// Streak counter after folding in one probe outcome: a failure
/// resets it to zero, a success raises it by one, saturating at the
/// counter's maximum instead of wrapping.
pub open spec fn health_step_count(count: u8, ok: bool) -> u8 {
    if ok {
        if count < 255 {
            (count + 1) as u8
        } else {
            255u8
        }
    } else {
        0u8
    }
}

/// Enabled flag after folding in one probe outcome: a failure forces
/// the instance out immediately; a success re-admits it only once the
/// streak of consecutive successes has reached two.
pub open spec fn health_step_enabled(enabled: bool, count: u8, ok: bool) -> bool {
    if ok {
        if health_step_count(count, ok) >= 2 {
            true
        } else {
            enabled
        }
    } else {
        false
    }
}

/// Hysteresis law: one failing probe disables an instance at once,
/// whatever its streak was; a single success after a failure leaves
/// it disabled; the second consecutive success re-enables it.
pub proof fn lemma_hysteresis(enabled: bool, count: u8)
    ensures
        health_step_enabled(enabled, count, false) == false,
        health_step_count(count, false) == 0,
        health_step_enabled(false, health_step_count(count, false), true) == false,
        health_step_count(health_step_count(count, false), true) == 1,
        health_step_enabled(false, 1u8, true) == true,
        health_step_count(1u8, true) == 2,
{
}

/// Streak counter after `k` consecutive successful probes.
pub open spec fn health_count_after(count: u8, k: nat) -> u8
    decreases k,
{
    if k == 0 {
        count
    } else {
        health_step_count(health_count_after(count, (k - 1) as nat), true)
    }
}

/// Saturation law: however many consecutive successes are folded in,
/// the streak counter never passes its maximum: it equals the smaller
/// of `count + k` and 255, so it saturates rather than wrapping.
pub proof fn lemma_health_count_saturates(count: u8, k: nat)
    ensures
        health_count_after(count, k) <= 255,
        count + k <= 255 ==> health_count_after(count, k) == count + k,
        count + k > 255 ==> health_count_after(count, k) == 255,
    decreases k,
{
    if k > 0 {
        lemma_health_count_saturates(count, (k - 1) as nat);
    }
}

} // verus!
