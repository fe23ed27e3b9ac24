//! The number that tells the kinds of shared components apart.

use vstd::prelude::*;

verus! {

/// Names one kind of shared component; both sides must agree on the numbers.
#[derive(Debug, Clone, Copy, PartialEq, Eq, Structural)]
pub struct ComponentTypeId(pub u64);

} // verus!
