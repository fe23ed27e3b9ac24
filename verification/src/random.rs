//! Fresh random numbers for identifiers.

use vstd::prelude::*;

verus! {

/// Calls `rand::random::<u64>()`, which draws from the thread-local
/// generator. Any `u64` may come back, and two calls may differ, so nothing
/// is stated of the result.
#[verifier::external_body]
pub(crate) fn random_u64() -> u64 {
    rand::random::<u64>()
}

} // verus!
