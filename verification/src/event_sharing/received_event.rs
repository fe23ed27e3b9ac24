//! An event that arrived from another client.

use crate::client_id::ClientId;
use crate::connection::connection_id::ConnectionId;
use vstd::prelude::*;

verus! {

/// A received event, with the connection it came on and the client that sent it.
#[derive(Debug)]
pub struct ReceivedEvent<T> {
    pub event: T,
    pub from_connection: ConnectionId,
    pub from_client: ClientId,
}

} // verus!
