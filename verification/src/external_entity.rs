//! An entity as it exists in another session's world.

use crate::hook_session::SessionId;
use bevy::ecs::entity::Entity;
use vstd::prelude::*;

verus! {

/// An entity of another world, with the session it lives behind.
#[derive(Clone, Copy)]
pub struct ExternalEntity {
    session_id: SessionId,
    entity: Entity,
}

impl ExternalEntity {
    /// The entity `entity` behind the session `session_id`.
    pub closed spec fn parts(self) -> (SessionId, Entity) {
        (self.session_id, self.entity)
    }

    /// The entity `entity` behind the session `session_id`.
    pub fn new(entity: Entity, session_id: SessionId) -> (external: Self)
        ensures
            external.parts() == (session_id, entity),
    {
        ExternalEntity { session_id, entity }
    }
}

} // verus!
