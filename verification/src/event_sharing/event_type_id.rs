//! The number that tells the kinds of shared events apart.

use vstd::prelude::*;

verus! {

/// Names one kind of shared event; both sides must agree on the numbers.
#[derive(Debug, Clone, Copy, PartialEq, Eq, Structural)]
pub struct EventTypeId(pub u64);

} // verus!
