//! Core data types: backend instances, the algorithm choice, and the
//! error taxonomy of the balancer's recoverable failures.

use vstd::prelude::*;

verus! {

/// The closed choice of selection algorithms, fixed for the lifetime
/// of the process.
#[allow(non_camel_case_types)]
#[derive(Debug, Copy, Clone, PartialEq, Eq, Structural)]
pub enum Algorithm {
    RANDOM,
    ROUND_ROBIN,
}

/// Identity of one backend: hostname and port. Immutable once
/// created; registry identity is positional, not by value.
#[derive(Debug)]
pub struct Instance {
    pub hostname: String,
    pub port: u16,
}

impl Instance {
    pub fn new(hostname: &str, port: u16) -> (r: Self)
        ensures
            r.hostname@ == hostname@,
            r.port == port,
    {
        Instance { hostname: hostname.to_owned(), port }
    }
}

impl Clone for Instance {
    fn clone(&self) -> (r: Self)
        ensures
            r == *self,
    {
        Instance { hostname: self.hostname.clone(), port: self.port }
    }
}

/// Recoverable failures surfaced to the balancer's callers; none of
/// them terminates the process.
#[derive(Debug, Copy, Clone, PartialEq, Eq, Structural)]
pub enum BalancerError {
    /// An administrative operation named an instance index beyond the
    /// registry bounds.
    IndexOutOfRange,
    /// Admission control rejected a request: the in-flight count is
    /// above the current aggregate capacity.
    CapacityExceeded,
    /// Selection found zero enabled instances.
    NoInstanceAvailable,
}

} // verus!
