//! What one side of a connection asks the other side to do.

use crate::client_id::ClientId;
use crate::clock::unix_time_secs;
use crate::component_sharing::component_type_id::ComponentTypeId;
use crate::event_sharing::event_type_id::EventTypeId;
use crate::filter::Filter;
use crate::random::random_u64;
use crate::sync_entity_id::SyncEntityId;
use vstd::prelude::*;

verus! {

/// One message between two connected clients.
#[derive(Clone, Debug)]
pub enum RemoteAction {
    /// A shared entity appeared, changed its filters, or went away.
    Entity { action: EntityAction, id: SyncEntityId, client_id: ClientId },
    /// A shared component of an entity appeared, changed, or went away.
    Component {
        action: ComponentAction,
        component_type_id: ComponentTypeId,
        entity_id: SyncEntityId,
        client_id: ClientId,
    },
    /// An event, serialised, with the clients that may receive it.
    SendEvent {
        event_type_id: EventTypeId,
        event_data_raw: Vec<u8>,
        client_id: ClientId,
        event_id: EventId,
        timestamp: EventTimestamp,
        client_filter: Filter<ClientId>,
    },
}

/// What is to happen to a shared entity on the receiving side.
#[derive(Clone, Debug)]
pub enum EntityAction {
    AddOrUpdate { client_read_filter: Filter<ClientId>, client_write_filter: Filter<ClientId> },
    Remove,
}

/// What is to happen to a shared component on the receiving side.
#[derive(Clone, Debug)]
pub enum ComponentAction {
    AddOrUpdate { component_data_raw: Vec<u8> },
    Remove,
}

/// Identifies one sent event, so that a relayed copy is recognised.
#[derive(Debug, Clone, Copy, Hash, PartialEq, Eq, Structural)]
pub struct EventId(pub u64);

/// When an event was sent, in whole seconds since the Unix epoch.
#[derive(Debug, Clone, Copy, PartialEq, Eq, Structural, PartialOrd, Ord)]
pub struct EventTimestamp(pub u64);

impl Default for EventId {
    /// A fresh random identifier.
    fn default() -> (id: Self) {
        EventId(random_u64())
    }
}

impl Default for EventTimestamp {
    /// The current time: the clock reading that [`unix_time_secs`] gives for this call.
    fn default() -> (now: Self)
        ensures
            call_ensures(unix_time_secs, (), now.0),
    {
        EventTimestamp(unix_time_secs())
    }
}

} // verus!
