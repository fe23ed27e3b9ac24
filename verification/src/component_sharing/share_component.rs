//! Marks a component to be shared, and remembers the connections it is on.

use crate::connection::connection_id::{lemma_connection_id_concrete_eq, ConnectionId};
use crate::filter::Filter;
use crate::presence::{presence_for, presence_on, record_presence, recorded, Presence};
use std::marker::PhantomData;
use vstd::prelude::*;

verus! {

/// The connections a shared component of kind `TComponent` may be sent to.
pub struct ComponentReadFilter<TComponent, T>(pub Filter<T>, pub PhantomData<TComponent>);

impl<TComponent, T> ComponentReadFilter<TComponent, T> {
    /// Wraps `filter` for components of kind `TComponent`.
    pub fn new(filter: Filter<T>) -> (wrapped: Self)
        ensures
            wrapped.0 == filter,
    {
        ComponentReadFilter(filter, PhantomData)
    }
}

/// Marks a component of kind `TComponent` as shared, and lists the
/// connections it has been sent to.
pub struct ShareComponent<TComponent> {
    pub phantom: PhantomData<TComponent>,
    pub on_sessions: Vec<ConnectionId>,
}

/// Whether the optional filter of an entity allows `connection`; an entity
/// without one allows every connection.
pub open spec fn entity_allows(entity_filter: Option<Filter<ConnectionId>>, connection: ConnectionId) -> bool {
    match entity_filter {
        Some(filter) => filter@.allows(connection),
        None => true,
    }
}

/// See [`entity_allows`].
pub fn entity_filter_allows(entity_filter: Option<&Filter<ConnectionId>>, connection: &ConnectionId) -> (allowed: bool)
    ensures
        allowed == entity_allows(
            match entity_filter {
                Some(f) => Some(*f),
                None => None,
            },
            *connection,
        ),
{
    broadcast use lemma_connection_id_concrete_eq;

    match entity_filter {
        Some(filter) => filter.is_allowed(connection),
        None => true,
    }
}

impl<TComponent> ShareComponent<TComponent> {
    /// Shared on no connection yet.
    pub fn new() -> (created: Self)
        ensures
            created.on_sessions@ == Seq::<ConnectionId>::empty(),
    {
        ShareComponent { phantom: PhantomData, on_sessions: Vec::new() }
    }

    /// What to send to `connection` now, given the component's filter and,
    /// if it has one, the filter of its entity.
    pub fn plan(
        &self,
        connection: &ConnectionId,
        component_filter: &Filter<ConnectionId>,
        entity_filter: Option<&Filter<ConnectionId>>,
    ) -> (step: Presence)
        ensures
            step == presence_for(
                self.on_sessions@.contains(*connection),
                component_filter@.allows(*connection),
                entity_allows(
                    match entity_filter {
                        Some(f) => Some(*f),
                        None => None,
                    },
                    *connection,
                ),
            ),
    {
        broadcast use lemma_connection_id_concrete_eq;

        let allowed = component_filter.is_allowed(connection);
        let entity_allowed = entity_filter_allows(entity_filter, connection);
        presence_on(&self.on_sessions, connection, allowed, entity_allowed)
    }

    /// Notes that `step` was taken for `connection`.
    pub fn record(&mut self, connection: ConnectionId, step: Presence)
        ensures
            final(self).on_sessions@ == recorded(old(self).on_sessions@, connection, step),
    {
        broadcast use lemma_connection_id_concrete_eq;

        record_presence(&mut self.on_sessions, connection, step);
    }
}

impl<TComponent> Default for ShareComponent<TComponent> {
    /// Shared on no connection yet.
    fn default() -> (created: Self)
        ensures
            created.on_sessions@ == Seq::<ConnectionId>::empty(),
    {
        ShareComponent::new()
    }
}

} // verus!
