//! The instance registry: the ordered backend list with, per
//! instance, an enabled flag and a rolling health streak, plus the
//! selection cursor and the capacity parameter. A plain data
//! structure: its caller provides the locking discipline.

use vstd::prelude::*;
use crate::hysteresis::{health_step_count, health_step_enabled};
use crate::select::{any_enabled, lemma_enabled_within_cycle, rr_find, rr_selected, random_index,
    step_idx};
use crate::types::{Algorithm, BalancerError, Instance};

verus! {

/// Mathematical model of the registry: three parallel sequences and
/// the fixed configuration beside them.
pub struct RegistryModel {
    pub instances: Seq<Instance>,
    pub enabled: Seq<bool>,
    pub health: Seq<u8>,
    pub algorithm: Algorithm,
    pub cursor: int,
    pub per_instance_capacity: u32,
}

/// Number of `true` entries in a sequence of flags.
pub open spec fn count_true(e: Seq<bool>) -> nat
    decreases e.len(),
{
    if e.len() == 0 {
        0
    } else {
        count_true(e.drop_last()) + if e.last() {
            1nat
        } else {
            0nat
        }
    }
}

pub proof fn lemma_count_true_le_len(e: Seq<bool>)
    ensures
        count_true(e) <= e.len(),
    decreases e.len(),
{
    if e.len() > 0 {
        lemma_count_true_le_len(e.drop_last());
    }
}

/// Aggregate capacity of a registry model: enabled instances times
/// the per-instance capacity, recomputed on demand, never cached.
pub open spec fn spec_current_capacity(m: RegistryModel) -> int {
    count_true(m.enabled) * m.per_instance_capacity
}

/// The registry. Instances, enabled flags and health streaks are
/// parallel vectors of one length; the instance list and the capacity
/// parameter are fixed at construction.
#[derive(Debug)]
pub struct LoadBalancerState {
    instances: Vec<Instance>,
    is_enabled: Vec<bool>,
    consecutive_health_ok: Vec<u8>,
    algorithm: Algorithm,
    round_robin_idx: usize,
    per_instance_capacity: u32,
}

impl View for LoadBalancerState {
    type V = RegistryModel;

    closed spec fn view(&self) -> RegistryModel {
        RegistryModel {
            instances: self.instances@,
            enabled: self.is_enabled@,
            health: self.consecutive_health_ok@,
            algorithm: self.algorithm,
            cursor: self.round_robin_idx as int,
            per_instance_capacity: self.per_instance_capacity,
        }
    }
}

impl LoadBalancerState {
    /// Well-formedness: the three sequences run in parallel, the
    /// cursor points into the list, and the registry is small enough
    /// that a capacity computation fits the counter's width.
    pub open spec fn wf(self) -> bool {
        &&& self@.enabled.len() == self@.instances.len()
        &&& self@.health.len() == self@.instances.len()
        &&& self@.instances.len() <= u32::MAX
        &&& self@.instances.len() * self@.per_instance_capacity <= u32::MAX
        &&& (self@.instances.len() == 0 ==> self@.cursor == 0)
        &&& (self@.instances.len() > 0 ==> 0 <= self@.cursor < self@.instances.len())
    }

    /// A fresh registry: every instance starts enabled with an empty
    /// health streak, and the cursor at the front.
    #[verifier::loop_isolation(false)]
    pub fn new(instances: Vec<Instance>, algorithm: Algorithm, per_instance_capacity: u32) -> (r:
        Self)
        requires
            instances@.len() <= u32::MAX,
            instances@.len() * per_instance_capacity <= u32::MAX,
        ensures
            r.wf(),
            r@.instances == instances@,
            r@.enabled.len() == instances@.len(),
            forall|i: int| 0 <= i < instances@.len() ==> r@.enabled[i],
            forall|i: int| 0 <= i < instances@.len() ==> r@.health[i] == 0,
            r@.algorithm == algorithm,
            r@.cursor == 0,
            r@.per_instance_capacity == per_instance_capacity,
    {
        let n = instances.len();
        let mut is_enabled: Vec<bool> = Vec::new();
        let mut consecutive_health_ok: Vec<u8> = Vec::new();
        for i in 0..n
            invariant
                is_enabled@.len() == i,
                consecutive_health_ok@.len() == i,
                forall|j: int| 0 <= j < i ==> is_enabled@[j],
                forall|j: int| 0 <= j < i ==> consecutive_health_ok@[j] == 0,
        {
            is_enabled.push(true);
            consecutive_health_ok.push(0u8);
        }
        LoadBalancerState {
            instances,
            is_enabled,
            consecutive_health_ok,
            algorithm,
            round_robin_idx: 0,
            per_instance_capacity,
        }
    }

    /// Aggregate capacity right now: enabled count times the
    /// per-instance capacity.
    #[verifier::loop_isolation(false)]
    pub fn current_capacity(&self) -> (r: u32)
        requires
            self.wf(),
        ensures
            r == spec_current_capacity(self@),
    {
        let mut result: u32 = 0;
        let n = self.is_enabled.len();
        for i in 0..n
            invariant
                result == count_true(self@.enabled.subrange(0, i as int)),
                result <= i,
        {
            let ghost prefix = self@.enabled.subrange(0, i as int);
            if self.is_enabled[i] {
                result = result + 1;
            }
            proof {
                let longer = self@.enabled.subrange(0, i + 1);
                assert(longer.drop_last() =~= prefix);
            }
        }
        proof {
            assert(self@.enabled.subrange(0, n as int) =~= self@.enabled);
            lemma_count_true_le_len(self@.enabled);
            assert(result * self.per_instance_capacity <= self@.enabled.len()
                * self.per_instance_capacity) by (nonlinear_arith)
                requires
                    result <= self@.enabled.len(),
                    self.per_instance_capacity >= 0,
            ;
        }
        result * self.per_instance_capacity
    }

    /// The ordered instance list, for snapshotting by callers.
    pub fn instances(&self) -> (r: &Vec<Instance>)
        ensures
            r@ == self@.instances,
    {
        &self.instances
    }

    /// An independent copy of the instance list, safe for a caller
    /// to keep using after it has released whatever lock guards the
    /// registry.
    #[verifier::loop_isolation(false)]
    pub fn snapshot_instances(&self) -> (r: Vec<Instance>)
        ensures
            r@ == self@.instances,
    {
        let mut r: Vec<Instance> = Vec::new();
        let n = self.instances.len();
        for i in 0..n
            invariant
                r@ == self@.instances.subrange(0, i as int),
        {
            r.push(self.instances[i].clone());
            proof {
                assert(r@ =~= self@.instances.subrange(0, i + 1));
            }
        }
        proof {
            assert(self@.instances.subrange(0, n as int) =~= self@.instances);
        }
        r
    }

    /// Number of instances the registry tracks.
    pub fn instance_count(&self) -> (r: usize)
        ensures
            r == self@.instances.len(),
    {
        self.instances.len()
    }

    /// The configured algorithm.
    pub fn algorithm(&self) -> (r: Algorithm)
        ensures
            r == self@.algorithm,
    {
        self.algorithm
    }

    /// The round-robin cursor as it stands.
    pub fn round_robin_cursor(&self) -> (r: usize)
        ensures
            r == self@.cursor,
    {
        self.round_robin_idx
    }

    /// The enabled flag of one instance, or `IndexOutOfRange`.
    pub fn is_instance_enabled(&self, idx: usize) -> (r: Result<bool, BalancerError>)
        requires
            self.wf(),
        ensures
            idx < self@.instances.len() ==> r == Ok::<bool, BalancerError>(self@.enabled[idx as int]),
            idx >= self@.instances.len() ==> r == Err::<bool, BalancerError>(
                BalancerError::IndexOutOfRange,
            ),
    {
        if idx < self.instances.len() {
            Ok(self.is_enabled[idx])
        } else {
            Err(BalancerError::IndexOutOfRange)
        }
    }

    /// The health streak of one instance, or `IndexOutOfRange`.
    pub fn health_streak(&self, idx: usize) -> (r: Result<u8, BalancerError>)
        requires
            self.wf(),
        ensures
            idx < self@.instances.len() ==> r == Ok::<u8, BalancerError>(self@.health[idx as int]),
            idx >= self@.instances.len() ==> r == Err::<u8, BalancerError>(
                BalancerError::IndexOutOfRange,
            ),
    {
        if idx < self.instances.len() {
            Ok(self.consecutive_health_ok[idx])
        } else {
            Err(BalancerError::IndexOutOfRange)
        }
    }

    /// Set one instance's enabled flag; rejects an index beyond the
    /// registry bounds and has no other effect.
    pub fn set_enabled(&mut self, idx: usize, enabled: bool) -> (r: Result<(), BalancerError>)
        requires
            old(self).wf(),
        ensures
            final(self).wf(),
            final(self)@.instances == old(self)@.instances,
            final(self)@.health == old(self)@.health,
            final(self)@.algorithm == old(self)@.algorithm,
            final(self)@.cursor == old(self)@.cursor,
            final(self)@.per_instance_capacity == old(self)@.per_instance_capacity,
            idx < old(self)@.instances.len() ==> r == Ok::<(), BalancerError>(())
                && final(self)@.enabled == old(self)@.enabled.update(idx as int, enabled),
            idx >= old(self)@.instances.len() ==> r == Err::<(), BalancerError>(
                BalancerError::IndexOutOfRange,
            ) && final(self)@.enabled == old(self)@.enabled,
    {
        if idx < self.instances.len() {
            self.is_enabled[idx] = enabled;
            Ok(())
        } else {
            Err(BalancerError::IndexOutOfRange)
        }
    }

    /// Fold one round of probe outcomes into the registry through the
    /// hysteresis rule, index by index; outcomes for different
    /// instances are independent.
    #[verifier::loop_isolation(false)]
    pub fn report_healthcheck_results(&mut self, results: Vec<bool>)
        requires
            old(self).wf(),
            results@.len() == old(self)@.instances.len(),
        ensures
            final(self).wf(),
            final(self)@.instances == old(self)@.instances,
            final(self)@.algorithm == old(self)@.algorithm,
            final(self)@.cursor == old(self)@.cursor,
            final(self)@.per_instance_capacity == old(self)@.per_instance_capacity,
            final(self)@.enabled.len() == old(self)@.enabled.len(),
            final(self)@.health.len() == old(self)@.health.len(),
            forall|i: int|
                0 <= i < results@.len() ==> final(self)@.health[i] == health_step_count(
                    old(self)@.health[i],
                    results@[i],
                ),
            forall|i: int|
                0 <= i < results@.len() ==> final(self)@.enabled[i] == health_step_enabled(
                    old(self)@.enabled[i],
                    old(self)@.health[i],
                    results@[i],
                ),
    {
        let n = results.len();
        for idx in 0..n
            invariant
                self.is_enabled@.len() == old(self)@.enabled.len(),
                self.consecutive_health_ok@.len() == old(self)@.health.len(),
                self.instances@ == old(self)@.instances,
                self.algorithm == old(self)@.algorithm,
                self.round_robin_idx == old(self)@.cursor,
                self.per_instance_capacity == old(self)@.per_instance_capacity,
                forall|j: int|
                    0 <= j < idx ==> self.consecutive_health_ok@[j] == health_step_count(
                        old(self)@.health[j],
                        results@[j],
                    ),
                forall|j: int|
                    0 <= j < idx ==> self.is_enabled@[j] == health_step_enabled(
                        old(self)@.enabled[j],
                        old(self)@.health[j],
                        results@[j],
                    ),
                forall|j: int|
                    idx <= j < n ==> self.consecutive_health_ok@[j] == old(self)@.health[j],
                forall|j: int| idx <= j < n ==> self.is_enabled@[j] == old(self)@.enabled[j],
        {
            if results[idx] {
                if self.consecutive_health_ok[idx] < 255 {
                    self.consecutive_health_ok[idx] = self.consecutive_health_ok[idx] + 1;
                }
                if self.consecutive_health_ok[idx] >= 2 {
                    self.is_enabled[idx] = true;
                }
            } else {
                self.consecutive_health_ok[idx] = 0;
                self.is_enabled[idx] = false;
            }
        }
    }

    /// Manually re-admit one instance, given the outcome of the
    /// synchronous probe its caller ran: an out-of-range index is
    /// rejected; a failed probe leaves the flag untouched and returns
    /// `Ok(false)`; a successful probe enables the instance and
    /// returns `Ok(true)`. The health streak is never touched here.
    pub fn reinstate(&mut self, idx: usize, probe_ok: bool) -> (r: Result<bool, BalancerError>)
        requires
            old(self).wf(),
        ensures
            final(self).wf(),
            final(self)@.instances == old(self)@.instances,
            final(self)@.health == old(self)@.health,
            final(self)@.algorithm == old(self)@.algorithm,
            final(self)@.cursor == old(self)@.cursor,
            final(self)@.per_instance_capacity == old(self)@.per_instance_capacity,
            idx >= old(self)@.instances.len() ==> r == Err::<bool, BalancerError>(
                BalancerError::IndexOutOfRange,
            ) && final(self)@.enabled == old(self)@.enabled,
            idx < old(self)@.instances.len() && !probe_ok ==> r == Ok::<bool, BalancerError>(false)
                && final(self)@.enabled == old(self)@.enabled,
            idx < old(self)@.instances.len() && probe_ok ==> r == Ok::<bool, BalancerError>(true)
                && final(self)@.enabled == old(self)@.enabled.update(idx as int, true),
    {
        if idx >= self.instances.len() {
            return Err(BalancerError::IndexOutOfRange);
        }
        if !probe_ok {
            return Ok(false);
        }
        let _ = self.set_enabled(idx, true);
        Ok(true)
    }

    /// Manually pull one instance out of rotation: no probe is
    /// involved, removing capacity is always safe to do at once. The
    /// health streak is never touched here.
    pub fn exclude(&mut self, idx: usize) -> (r: Result<(), BalancerError>)
        requires
            old(self).wf(),
        ensures
            final(self).wf(),
            final(self)@.instances == old(self)@.instances,
            final(self)@.health == old(self)@.health,
            final(self)@.algorithm == old(self)@.algorithm,
            final(self)@.cursor == old(self)@.cursor,
            final(self)@.per_instance_capacity == old(self)@.per_instance_capacity,
            idx >= old(self)@.instances.len() ==> r == Err::<(), BalancerError>(
                BalancerError::IndexOutOfRange,
            ) && final(self)@.enabled == old(self)@.enabled,
            idx < old(self)@.instances.len() ==> r == Ok::<(), BalancerError>(())
                && final(self)@.enabled == old(self)@.enabled.update(idx as int, false),
    {
        self.set_enabled(idx, false)
    }

    /// Pick the instance the next request goes to, or `None` when
    /// nothing is enabled. Random: a uniform draw among the enabled
    /// instances, cursor untouched. Round-robin: the first enabled
    /// instance scanning from the cursor, which then moves one past
    /// the selected index; every attempt advances the cursor, so
    /// successive calls rotate fairly.
    #[verifier::loop_isolation(false)]
    pub fn get_next_instance(&mut self) -> (r: Option<Instance>)
        requires
            old(self).wf(),
        ensures
            final(self).wf(),
            final(self)@.instances == old(self)@.instances,
            final(self)@.enabled == old(self)@.enabled,
            final(self)@.health == old(self)@.health,
            final(self)@.algorithm == old(self)@.algorithm,
            final(self)@.per_instance_capacity == old(self)@.per_instance_capacity,
            r is Some <==> any_enabled(old(self)@.enabled),
            r matches Some(inst) ==> exists|i: int|
                0 <= i < old(self)@.instances.len() && old(self)@.enabled[i] && inst == old(
                    self,
                )@.instances[i],
            !any_enabled(old(self)@.enabled) ==> final(self)@.cursor == old(self)@.cursor,
            old(self)@.algorithm is RANDOM ==> final(self)@.cursor == old(self)@.cursor,
            old(self)@.algorithm is ROUND_ROBIN && any_enabled(old(self)@.enabled) ==> ({
                let sel = rr_selected(old(self)@.enabled, old(self)@.cursor);
                &&& r == Some(old(self)@.instances[sel])
                &&& final(self)@.cursor == step_idx(old(self)@.instances.len() as int, sel)
            }),
    {
        let mut is_any_enabled: bool = false;
        let n = self.instances.len();
        for i in 0..n
            invariant
                is_any_enabled <==> exists|j: int| 0 <= j < i && self.is_enabled@[j],
        {
            if self.is_enabled[i] {
                is_any_enabled = true;
            }
        }
        if !is_any_enabled {
            return None;
        }
        match self.algorithm {
            Algorithm::RANDOM => {
                let mut enabled_indices: Vec<usize> = Vec::new();
                for i in 0..n
                    invariant
                        forall|k: int|
                            0 <= k < enabled_indices@.len() ==> (#[trigger] enabled_indices@[k]
                                < n && self.is_enabled@[enabled_indices@[k] as int]),
                        (exists|j: int| 0 <= j < i && self.is_enabled@[j])
                            ==> enabled_indices@.len() > 0,
                {
                    if self.is_enabled[i] {
                        enabled_indices.push(i);
                    }
                }
                let idx_idx = random_index(enabled_indices.len());
                let idx = enabled_indices[idx_idx];
                Some(self.instances[idx].clone())
            },
            Algorithm::ROUND_ROBIN => {
                let ghost e = self.is_enabled@;
                proof {
                    lemma_enabled_within_cycle(e, self.round_robin_idx as int);
                    crate::select::lemma_rr_find_some(e, self.round_robin_idx as int, n as nat);
                }
                let ghost sel = rr_selected(e, self.round_robin_idx as int);
                let ghost mut fuel: nat = n as nat;
                loop
                    invariant
                        self.instances@ == old(self)@.instances,
                        self.is_enabled@ == e,
                        self.consecutive_health_ok@ == old(self)@.health,
                        self.algorithm == old(self)@.algorithm,
                        self.per_instance_capacity == old(self)@.per_instance_capacity,
                        self.round_robin_idx < n,
                        fuel <= n,
                        rr_find(e, self.round_robin_idx as int, fuel) == Some(sel),
                    decreases fuel,
                {
                    let idx = self.round_robin_idx;
                    let next_idx = if idx + 1 < self.instances.len() {
                        idx + 1
                    } else {
                        0
                    };
                    self.round_robin_idx = next_idx;
                    if self.is_enabled[idx] {
                        proof {
                            assert(rr_find(e, idx as int, fuel) == Some(idx as int));
                            assert(sel == idx as int);
                        }
                        return Some(self.instances[idx].clone());
                    }
                    proof {
                        assert(rr_find(e, idx as int, fuel) == rr_find(
                            e,
                            step_idx(n as int, idx as int),
                            (fuel - 1) as nat,
                        ));
                        assert(next_idx as int == step_idx(n as int, idx as int));
                        fuel = (fuel - 1) as nat;
                    }
                }
            },
        }
    }
}

} // verus!
