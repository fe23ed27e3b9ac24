//! A request to send an event to the connected clients.

use crate::client_id::ClientId;
use crate::clock::unix_time_secs;
use crate::connection::connection_id::ConnectionId;
use crate::connection::remote_action::{EventId, EventTimestamp};
use crate::filter::{Filter, FilterView};
use vstd::prelude::*;

verus! {

/// An event to send, with the clients that may receive it and the
/// connections it is sent on.
pub struct SendEvent<T> {
    pub event: T,
    pub event_id: EventId,
    pub timestamp: EventTimestamp,
    pub client_filter: Filter<ClientId>,
    pub connection_filter: Filter<ConnectionId>,
}

impl<T> SendEvent<T> {
    /// Sends `event` now, under a fresh identifier, to every client on every
    /// connection; its send time is the clock reading that
    /// [`unix_time_secs`] gives for this call.
    pub fn new(event: T) -> (request: Self)
        ensures
            request.event == event,
            call_ensures(unix_time_secs, (), request.timestamp.0),
            request.client_filter@ == FilterView::<ClientId>::Blacklist(Seq::empty()),
            request.connection_filter@ == FilterView::<ConnectionId>::Blacklist(Seq::empty()),
    {
        SendEvent {
            event,
            event_id: EventId::default(),
            timestamp: EventTimestamp::default(),
            client_filter: Filter::allow_all(),
            connection_filter: Filter::allow_all(),
        }
    }

    /// The same request, received only by the clients `client_filter` allows.
    pub fn with_client_filter(self, client_filter: Filter<ClientId>) -> (request: Self)
        ensures
            request.event == self.event,
            request.event_id == self.event_id,
            request.timestamp == self.timestamp,
            request.client_filter == client_filter,
            request.connection_filter == self.connection_filter,
    {
        SendEvent { client_filter, ..self }
    }

    /// The same request, sent only on the connections `connection_filter` allows.
    pub fn with_connection_filter(self, connection_filter: Filter<ConnectionId>) -> (request: Self)
        ensures
            request.event == self.event,
            request.event_id == self.event_id,
            request.timestamp == self.timestamp,
            request.client_filter == self.client_filter,
            request.connection_filter == connection_filter,
    {
        SendEvent { connection_filter, ..self }
    }
}

} // verus!
