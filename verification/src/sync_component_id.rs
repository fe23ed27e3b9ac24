//! The network-wide identity of a shared component.

use crate::random::random_u64;
use vstd::prelude::*;

verus! {

/// Identifies one shared component on every client that holds a copy of it.
#[derive(Debug, Clone, Copy, PartialEq, Eq, Structural)]
pub struct SyncComponentId(u64);

impl SyncComponentId {
    /// A fresh random identifier.
    pub fn new() -> (id: Self) {
        SyncComponentId(random_u64())
    }
}

impl Default for SyncComponentId {
    /// A fresh random identifier.
    fn default() -> (id: Self) {
        SyncComponentId::new()
    }
}

} // verus!
