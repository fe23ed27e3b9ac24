//! A component received from a session, tied to the sender's entity.

use bevy::ecs::entity::Entity;
use vstd::prelude::*;

verus! {

/// `bevy::ecs::entity::Entity`, carried through opaque.
#[verifier::external_type_specification]
#[verifier::external_body]
pub struct ExEntity(Entity);

/// A received component's value and the entity it belongs to on the sender's side.
pub struct SharedComponent<T> {
    pub inner: T,
    pub external_entity: Entity,
}

impl<T> SharedComponent<T> {
    /// A received component `inner` of the sender's entity `external_entity`.
    pub fn new(inner: T, external_entity: Entity) -> (shared: Self)
        ensures
            shared.inner == inner,
            shared.external_entity == external_entity,
    {
        SharedComponent { inner, external_entity }
    }

    /// Replaces the received value.
    pub fn update_inner(&mut self, updated: T)
        ensures
            final(self).inner == updated,
            final(self).external_entity == old(self).external_entity,
    {
        self.inner = updated;
    }
}

} // verus!
