//! A network-wide identity.

use crate::random::random_u64;
use vstd::prelude::*;

verus! {

/// Identifies one shared thing on every client.
#[derive(Debug, Clone, Copy, PartialEq, Eq, Structural)]
pub struct SyncId(u64);

impl SyncId {
    /// A fresh random identifier.
    pub fn new() -> (id: Self) {
        SyncId(random_u64())
    }
}

impl Default for SyncId {
    /// A fresh random identifier.
    fn default() -> (id: Self) {
        SyncId::new()
    }
}

} // verus!
