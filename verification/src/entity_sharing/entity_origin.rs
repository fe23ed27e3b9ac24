//! Where a received entity came from.

use vstd::prelude::*;

verus! {

/// Marks an entity with the connection or client it came from.
#[derive(Debug, Clone, Copy)]
pub struct EntityOrigin<T>(pub T);

} // verus!
