//! The probe endpoint body that every backend provider serves.

use vstd::prelude::*;

verus! {

/// Body of a provider's health-check endpoint: a fixed acknowledgement.
pub fn check() -> (r: &'static str)
    ensures
        r@ == "OK"@,
{
    "OK"
}

} // verus!
