//! A component received from a session.

use crate::sync_component_id::SyncComponentId;
use vstd::prelude::*;

verus! {

/// A received component's value and its network identity.
pub struct Shared<T> {
    pub inner: T,
    pub component_id: SyncComponentId,
}

impl<T> Shared<T> {
    /// A received component `inner` with identity `component_id`.
    pub fn new(inner: T, component_id: SyncComponentId) -> (shared: Self)
        ensures
            shared.inner == inner,
            shared.component_id == component_id,
    {
        Shared { inner, component_id }
    }

    /// Replaces the received value.
    pub fn update_inner(&mut self, updated: T)
        ensures
            final(self).inner == updated,
            final(self).component_id == old(self).component_id,
    {
        self.inner = updated;
    }
}

} // verus!
