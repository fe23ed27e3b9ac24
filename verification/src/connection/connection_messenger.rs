//! The transport that carries messages of one connection.

use crate::connection::connection_id::ConnectionId;
use crate::connection::remote_action::RemoteAction;
use vstd::prelude::*;

verus! {

/// Why a message could not be handed to the transport.
#[derive(Debug, Clone)]
pub struct ConnectionError {
    pub message: String,
}

/// What a transport (a websocket, a peer-to-peer session, ...) offers to a
/// [`crate::connection::Connection`]. Implemented by the users of this library.
pub trait ConnectionMessenger: Send + Sync {
    /// The identifier of the connection this transport serves.
    fn get_connection_id(&self) -> ConnectionId;

    /// Hands one message to the transport.
    fn send_action(&self, action: RemoteAction) -> Result<(), ConnectionError>;
}

} // verus!
