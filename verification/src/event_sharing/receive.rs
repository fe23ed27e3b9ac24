//! What a client does with an event message it received.

use crate::client_id::{lemma_client_id_concrete_eq, ClientId};
use crate::connection::connection_id::ConnectionId;
use crate::connection::remote_action::RemoteAction;
use crate::resharing::reshare_events_plugin::ReshareEvent;
use vstd::prelude::*;

verus! {

/// What to do with a received event: deliver it here or not, and the copy
/// to pass on to the other connections, which is made either way.
#[derive(Debug)]
pub struct EventReceipt {
    /// Whether the event's client filter lets this client receive it.
    pub deliver: bool,
    /// The event, still serialised, to pass on.
    pub reshare: ReshareEvent,
}

/// Decides what to do with `message`, which arrived on `from_connection`,
/// for the client `local_client`: `None` when it is not an event message;
/// otherwise the event is delivered when its client filter allows this
/// client, and passed on with every field it came with.
pub fn event_receipt(message: RemoteAction, from_connection: ConnectionId, local_client: &ClientId) -> (receipt: Option<
    EventReceipt,
>)
    ensures
        (match message {
            RemoteAction::SendEvent { event_type_id, event_data_raw, client_id, event_id, timestamp, client_filter } => {
                &&& receipt is Some
                &&& receipt->0.deliver == client_filter@.allows(*local_client)
                &&& receipt->0.reshare == ReshareEvent {
                    event_data: event_data_raw,
                    event_type_id,
                    event_id,
                    timestamp,
                    client_filter,
                    from_connection,
                    from_client: client_id,
                }
            },
            _ => receipt is None,
        }),
{
    broadcast use lemma_client_id_concrete_eq;

    match message {
        RemoteAction::SendEvent { event_type_id, event_data_raw, client_id, event_id, timestamp, client_filter } => {
            let deliver = client_filter.is_allowed(local_client);
            Some(
                EventReceipt {
                    deliver,
                    reshare: ReshareEvent {
                        event_data: event_data_raw,
                        event_type_id,
                        event_id,
                        timestamp,
                        client_filter,
                        from_connection,
                        from_client: client_id,
                    },
                },
            )
        },
        _ => None,
    }
}

} // verus!
