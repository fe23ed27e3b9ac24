//! What a client does with an entity message it received.

use crate::client_id::{lemma_client_id_concrete_eq, ClientId};
use crate::connection::connection_id::{lemma_connection_id_concrete_eq, ConnectionId};
use crate::connection::remote_action::EntityAction;
use crate::filter::{lemma_filter_eq_is_view_eq, Filter, FilterView};
use vstd::prelude::*;

verus! {

/// What to do with the local copy of an entity after a message about it.
#[derive(Debug, Clone, Copy, PartialEq, Eq, Structural)]
pub enum EntityUpdate {
    /// The copy exists and its filters changed: store the new filters, and
    /// show the entity exactly when `visible`.
    Refilter { visible: bool },
    /// The copy exists and its filters did not change: nothing.
    Unchanged,
    /// No copy exists: create one with the received filters, shown exactly
    /// when `visible`.
    Spawn { visible: bool },
    /// The copy goes away.
    Despawn,
    /// A removal arrived for an entity that has no copy: nothing.
    Missing,
}

/// What [`entity_update`] decides for `action`, given the read and write
/// filters of the local copy if there is one, on the client `own_client`:
/// an entity is shown when its new read filter lets this client see it.
pub open spec fn entity_update_for(
    action: EntityAction,
    existing: Option<(FilterView<ClientId>, FilterView<ClientId>)>,
    own_client: ClientId,
) -> EntityUpdate {
    match action {
        EntityAction::AddOrUpdate { client_read_filter, client_write_filter } => match existing {
            Some((read, write)) => if client_read_filter@ != read || client_write_filter@ != write {
                EntityUpdate::Refilter { visible: client_read_filter@.allows(own_client) }
            } else {
                EntityUpdate::Unchanged
            },
            None => EntityUpdate::Spawn { visible: client_read_filter@.allows(own_client) },
        },
        EntityAction::Remove => match existing {
            Some(_) => EntityUpdate::Despawn,
            None => EntityUpdate::Missing,
        },
    }
}

/// Decides what to do with the local copy of an entity after `action`
/// arrived for it; see [`entity_update_for`].
pub fn entity_update(
    action: &EntityAction,
    existing: Option<(&Filter<ClientId>, &Filter<ClientId>)>,
    own_client: &ClientId,
) -> (update: EntityUpdate)
    ensures
        update == entity_update_for(
            *action,
            match existing {
                Some((read, write)) => Some((read@, write@)),
                None => None,
            },
            *own_client,
        ),
{
    broadcast use lemma_client_id_concrete_eq;

    match action {
        EntityAction::AddOrUpdate { client_read_filter, client_write_filter } => {
            let visible = client_read_filter.is_allowed(own_client);
            match existing {
                Some((read, write)) => {
                    proof {
                        lemma_filter_eq_is_view_eq(*client_read_filter, *read);
                        lemma_filter_eq_is_view_eq(*client_write_filter, *write);
                    }
                    if !(*client_read_filter == *read) || !(*client_write_filter == *write) {
                        EntityUpdate::Refilter { visible }
                    } else {
                        EntityUpdate::Unchanged
                    }
                },
                None => EntityUpdate::Spawn { visible },
            }
        },
        EntityAction::Remove => match existing {
            Some(_) => EntityUpdate::Despawn,
            None => EntityUpdate::Missing,
        },
    }
}

/// Whether a connection may change an entity, given the entity's write
/// filter over connections if it has one; without one, every connection may.
pub fn may_write(write_filter: Option<&Filter<ConnectionId>>, connection: &ConnectionId) -> (allowed: bool)
    ensures
        allowed == match write_filter {
            Some(f) => f@.allows(*connection),
            None => true,
        },
{
    broadcast use lemma_connection_id_concrete_eq;

    match write_filter {
        Some(filter) => filter.is_allowed(connection),
        None => true,
    }
}

/// What an entity message does to the local copy: an announcement for an
/// entity with a copy changes nothing exactly when both received filters
/// equal the stored ones, and otherwise (a new read filter, a new write
/// filter, or both) stores them, showing the entity exactly when the new read
/// filter lets this client see it; an announcement without a copy creates
/// one; a removal removes the copy if there is one.
pub proof fn lemma_entity_update_effects(
    read: Filter<ClientId>,
    write: Filter<ClientId>,
    stored: Option<(FilterView<ClientId>, FilterView<ClientId>)>,
    own_client: ClientId,
)
    ensures
        ({
            let update = entity_update_for(
                EntityAction::AddOrUpdate { client_read_filter: read, client_write_filter: write },
                stored,
                own_client,
            );
            match stored {
                Some((stored_read, stored_write)) => {
                    &&& (update == EntityUpdate::Unchanged) == (read@ == stored_read && write@ == stored_write)
                    &&& write@ != stored_write ==> update == EntityUpdate::Refilter { visible: read@.allows(own_client) }
                    &&& read@ != stored_read ==> update == EntityUpdate::Refilter { visible: read@.allows(own_client) }
                },
                None => update == EntityUpdate::Spawn { visible: read@.allows(own_client) },
            }
        }),
        entity_update_for(EntityAction::Remove, stored, own_client) == if stored is Some {
            EntityUpdate::Despawn
        } else {
            EntityUpdate::Missing
        },
{
}

} // verus!
