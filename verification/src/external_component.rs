//! A shared component named by its entity and its own identity.

use crate::sync_component_id::SyncComponentId;
use crate::sync_entity_id::SyncEntityId;
use vstd::prelude::*;

verus! {

/// Names a shared component across worlds.
#[derive(Debug, Clone, Copy, PartialEq, Eq, Structural)]
pub struct ExternalComponent {
    pub entity_id: SyncEntityId,
    pub component_id: SyncComponentId,
}

impl ExternalComponent {
    /// The component `component_id` of the entity `entity_id`.
    pub fn new(entity_id: SyncEntityId, component_id: SyncComponentId) -> (named: Self)
        ensures
            named.entity_id == entity_id,
            named.component_id == component_id,
    {
        ExternalComponent { entity_id, component_id }
    }

    /// The same component, named from the other side: the entity's mirrored identifier.
    pub fn counterpart(&self) -> (mirrored: Self)
        ensures
            mirrored.entity_id.raw() == u64::MAX - self.entity_id.raw(),
            mirrored.component_id == self.component_id,
    {
        ExternalComponent { entity_id: self.entity_id.counterpart(), component_id: self.component_id }
    }
}

} // verus!
