//! Passing received events on to the other connections.

use crate::client_id::ClientId;
use crate::connection::connection_id::ConnectionId;
use crate::connection::remote_action::{EventId, EventTimestamp};
use crate::event_sharing::event_type_id::EventTypeId;
use crate::filter::Filter;
use vstd::prelude::*;

verus! {

/// A received event, still serialised, to pass on to every connection but
/// the one it came on.
#[derive(Debug)]
pub struct ReshareEvent {
    pub event_data: Vec<u8>,
    pub event_type_id: EventTypeId,
    pub event_id: EventId,
    pub timestamp: EventTimestamp,
    pub client_filter: Filter<ClientId>,
    pub from_connection: ConnectionId,
    pub from_client: ClientId,
}

} // verus!
