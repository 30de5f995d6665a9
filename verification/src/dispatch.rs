//! Admission control and the per-request decision: check capacity,
//! then select an instance. Forwarding itself is I/O and stays with
//! the caller; the decision and the response prefix live here.

use vstd::prelude::*;
use vstd::string::StringExecFns;
use crate::registry::{LoadBalancerState, spec_current_capacity};
use crate::select::{any_enabled, rr_selected, step_idx};
use crate::types::{BalancerError, Instance};

verus! {

/// Admission rule: a request is admitted exactly when the in-flight
/// count does not pass the current aggregate capacity.
pub fn try_admit(in_flight: u32, current_capacity: u32) -> (r: bool)
    ensures
        r == (in_flight <= current_capacity),
{
    in_flight <= current_capacity
}

/// The balancer's success body: the backend's body behind a fixed
/// prefix.
pub fn wrap_response(body: &str) -> (r: String)
    ensures
        r@ == "got "@ + body@,
{
    let prefix: String = "got ".to_owned();
    prefix.concat(body)
}

impl LoadBalancerState {
    /// One request's decision, taken in a single critical section:
    /// reject when the in-flight count passes the capacity, otherwise
    /// hand out the next instance, or report that none is enabled.
    /// The registry is untouched on rejection; selection moves only
    /// the cursor.
    pub fn admit_and_select(&mut self, in_flight: u32) -> (r: Result<Instance, BalancerError>)
        requires
            old(self).wf(),
        ensures
            final(self).wf(),
            final(self)@.instances == old(self)@.instances,
            final(self)@.enabled == old(self)@.enabled,
            final(self)@.health == old(self)@.health,
            final(self)@.algorithm == old(self)@.algorithm,
            final(self)@.per_instance_capacity == old(self)@.per_instance_capacity,
            in_flight > spec_current_capacity(old(self)@) ==> r == Err::<Instance, BalancerError>(
                BalancerError::CapacityExceeded,
            ) && final(self)@ == old(self)@,
            in_flight <= spec_current_capacity(old(self)@) && !any_enabled(old(self)@.enabled)
                ==> r == Err::<Instance, BalancerError>(BalancerError::NoInstanceAvailable)
                && final(self)@.cursor == old(self)@.cursor,
            in_flight <= spec_current_capacity(old(self)@) && any_enabled(old(self)@.enabled)
                ==> r is Ok && exists|i: int|
                0 <= i < old(self)@.instances.len() && old(self)@.enabled[i] && r
                    == Ok::<Instance, BalancerError>(old(self)@.instances[i]),
            in_flight <= spec_current_capacity(old(self)@) && any_enabled(old(self)@.enabled)
                && old(self)@.algorithm is ROUND_ROBIN ==> ({
                let sel = rr_selected(old(self)@.enabled, old(self)@.cursor);
                &&& r == Ok::<Instance, BalancerError>(old(self)@.instances[sel])
                &&& final(self)@.cursor == step_idx(old(self)@.instances.len() as int, sel)
            }),
            old(self)@.algorithm is RANDOM ==> final(self)@.cursor == old(self)@.cursor,
    {
        let capacity = self.current_capacity();
        if !try_admit(in_flight, capacity) {
            return Err(BalancerError::CapacityExceeded);
        }
        match self.get_next_instance() {
            None => Err(BalancerError::NoInstanceAvailable),
            Some(instance) => Ok(instance),
        }
    }
}

} // verus!
