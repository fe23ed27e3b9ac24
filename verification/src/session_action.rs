//! What one side of a session asks the other side to do.

use crate::sync_entity_id::SyncEntityId;
use vstd::prelude::*;

verus! {

/// One message of a session, carrying data of the sendable type `TSendables`.
#[derive(Clone, Debug)]
pub enum SessionAction<TSendables> {
    AddEntity { id: SyncEntityId },
    RemoveEntity { id: SyncEntityId },
    AddComponent { component_data: TSendables, entity_id: SyncEntityId },
    UpdateComponent { component_data: TSendables, entity_id: SyncEntityId },
    RemoveComponent { entity_id: SyncEntityId },
    SendEvent { event_data: TSendables },
}

} // verus!
