//! The in-flight request counter: raised when a request enters
//! admission evaluation, lowered exactly once when its response is
//! finalized, whichever exit path was taken.

use vstd::prelude::*;

verus! {

/// Count of requests currently being served. The counting discipline
/// is the caller's: one raise on entry, one matching drop on exit.
#[derive(Debug)]
pub struct RequestCounter {
    num_request: u32,
}

impl View for RequestCounter {
    type V = u32;

    closed spec fn view(&self) -> u32 {
        self.num_request
    }
}

impl RequestCounter {
    /// A fresh counter: nothing is in flight.
    pub fn new() -> (r: Self)
        ensures
            r@ == 0,
    {
        RequestCounter { num_request: 0 }
    }

    /// The in-flight count as it stands.
    pub fn get_num_requests(&self) -> (r: u32)
        ensures
            r == self@,
    {
        self.num_request
    }

    /// A request entered handling: one more in flight.
    pub fn on_request(&mut self)
        requires
            old(self)@ < u32::MAX,
        ensures
            final(self)@ == old(self)@ + 1,
    {
        self.num_request = self.num_request + 1;
    }

    /// A response was finalized: exactly one slot frees up.
    pub fn on_response(&mut self)
        requires
            old(self)@ > 0,
        ensures
            final(self)@ == old(self)@ - 1,
    {
        self.num_request = self.num_request - 1;
    }
}

} // verus!
