//! Marks an entity as shared, and the filters that govern who sees it.

use crate::client_id::ClientId;
use crate::connection::connection_id::{lemma_connection_id_concrete_eq, ConnectionId};
use crate::filter::Filter;
use crate::presence::{presence_for, presence_on, record_presence, recorded, Presence};
use crate::sync_entity_id::SyncEntityId;
use vstd::prelude::*;

verus! {

/// Who may see a shared entity: connections or clients, by `T`.
#[derive(Debug, Clone)]
pub struct EntityReadFilter<T>(pub Filter<T>);

/// Who may change a shared entity: connections or clients, by `T`.
#[derive(Debug, Clone)]
pub struct EntityWriteFilter<T>(pub Filter<T>);

/// Marks an entity as shared under a network-wide identifier.
#[derive(Debug, Clone, Copy)]
pub struct SyncEntity {
    pub sync_id: SyncEntityId,
}

/// Marks a shared entity as owned here, and lists the connections it has
/// been announced on.
#[derive(Debug, Clone)]
pub struct SyncEntityOwner {
    pub on_connections: Vec<ConnectionId>,
}

impl SyncEntity {
    /// Shares an entity under `sync_id`.
    pub fn new_from_id(sync_id: SyncEntityId) -> (entity: Self)
        ensures
            entity.sync_id == sync_id,
    {
        SyncEntity { sync_id }
    }
}

impl Default for SyncEntity {
    /// Shares an entity under a fresh random identifier.
    fn default() -> (entity: Self) {
        SyncEntity { sync_id: SyncEntityId::new() }
    }
}

impl SyncEntityOwner {
    /// Owned here and announced on no connection yet.
    pub fn new() -> (owner: Self)
        ensures
            owner.on_connections@ == Seq::<ConnectionId>::empty(),
    {
        SyncEntityOwner { on_connections: Vec::new() }
    }

    /// What to tell `connection` about the entity when its filters changed:
    /// announce it, send its new filters, or announce its removal.
    pub fn plan(&self, connection: &ConnectionId, connection_filter: &Filter<ConnectionId>) -> (step: Presence)
        ensures
            step == presence_for(
                self.on_connections@.contains(*connection),
                connection_filter@.allows(*connection),
                true,
            ),
    {
        broadcast use lemma_connection_id_concrete_eq;

        let allowed = connection_filter.is_allowed(connection);
        presence_on(&self.on_connections, connection, allowed, true)
    }

    /// What to tell a connection that has just been opened: the entity is
    /// announced there when the filter allows it.
    pub fn plan_initial(&self, connection: &ConnectionId, connection_filter: &Filter<ConnectionId>) -> (step: Presence)
        ensures
            step == presence_for(false, connection_filter@.allows(*connection), true),
    {
        broadcast use lemma_connection_id_concrete_eq;

        let allowed = connection_filter.is_allowed(connection);
        if allowed {
            Presence::Add
        } else {
            Presence::Skip
        }
    }

    /// Notes that `step` was taken for `connection`.
    pub fn record(&mut self, connection: ConnectionId, step: Presence)
        ensures
            final(self).on_connections@ == recorded(old(self).on_connections@, connection, step),
    {
        broadcast use lemma_connection_id_concrete_eq;

        record_presence(&mut self.on_connections, connection, step);
    }
}

impl Default for SyncEntityOwner {
    /// Owned here and announced on no connection yet.
    fn default() -> (owner: Self)
        ensures
            owner.on_connections@ == Seq::<ConnectionId>::empty(),
    {
        SyncEntityOwner::new()
    }
}

/// The filters a shared entity gets by default: every client may see it,
/// no client may change it.
pub fn default_client_filters() -> (filters: (EntityReadFilter<ClientId>, EntityWriteFilter<ClientId>))
    ensures
        forall|c: ClientId| filters.0.0@.allows(c),
        forall|c: ClientId| !filters.1.0@.allows(c),
{
    (EntityReadFilter(Filter::allow_all()), EntityWriteFilter(Filter::allow_none()))
}

/// The filters an owned entity gets by default: every connection may see
/// it, no connection may change it.
pub fn default_connection_filters() -> (filters: (EntityReadFilter<ConnectionId>, EntityWriteFilter<ConnectionId>))
    ensures
        forall|c: ConnectionId| filters.0.0@.allows(c),
        forall|c: ConnectionId| !filters.1.0@.allows(c),
{
    (EntityReadFilter(Filter::allow_all()), EntityWriteFilter(Filter::allow_none()))
}

} // verus!
