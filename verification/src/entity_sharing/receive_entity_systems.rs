//! A name for the work that receives entities.

use vstd::prelude::*;

verus! {

/// The work that receives entity messages.
#[derive(Debug, Default, Clone, Copy, PartialEq, Eq, Structural, Hash)]
pub struct ReceiveEntitySystems;

} // verus!
