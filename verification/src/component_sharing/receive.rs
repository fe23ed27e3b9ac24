//! What a client does with a component message it received.

use crate::connection::connection_id::ConnectionId;
use crate::connection::routing::relay_targets;
use crate::connection::remote_action::ComponentAction;
use crate::entity_sharing::entity_sync::may_write;
use crate::filter::Filter;
use vstd::prelude::*;

verus! {

/// What to do with a received component message.
#[derive(Debug, Clone, Copy, PartialEq, Eq, Structural)]
pub enum ComponentReceipt {
    /// No local entity has the message's identifier: drop it.
    UnknownEntity,
    /// The sending connection may not change the entity: drop it.
    Refused,
    /// Remove the component from the entity.
    Remove,
    /// Decode the data and add or update the component.
    Store,
}

/// Decides what to do with a component message from `from`, given whether
/// its entity exists here and, if the entity has one, its write filter.
pub fn component_receipt(
    entity_found: bool,
    write_filter: Option<&Filter<ConnectionId>>,
    from: &ConnectionId,
    action: &ComponentAction,
) -> (receipt: ComponentReceipt)
    ensures
        receipt == if !entity_found {
            ComponentReceipt::UnknownEntity
        } else if !(match write_filter {
            Some(f) => f@.allows(*from),
            None => true,
        }) {
            ComponentReceipt::Refused
        } else if *action is Remove {
            ComponentReceipt::Remove
        } else {
            ComponentReceipt::Store
        },
{
    if !entity_found {
        return ComponentReceipt::UnknownEntity;
    }
    if !may_write(write_filter, from) {
        return ComponentReceipt::Refused;
    }
    match action {
        ComponentAction::Remove => ComponentReceipt::Remove,
        ComponentAction::AddOrUpdate { .. } => ComponentReceipt::Store,
    }
}

/// For each connection of `connections`, whether a component message that
/// arrived on `from` with the receipt `receipt` is passed on to it: a
/// stored update of a component this client shares is passed on to every
/// other connection, whether or not its data decodes here; a removal, a
/// refused message or one for an unknown entity is passed on to none.
pub fn component_relay_targets(
    receipt: ComponentReceipt,
    shared_here: bool,
    connections: &Vec<ConnectionId>,
    from: &ConnectionId,
) -> (targets: Vec<bool>)
    ensures
        targets@.len() == connections@.len(),
        forall|i: int|
            0 <= i < connections@.len() ==> targets@[i] == (receipt == ComponentReceipt::Store && shared_here
                && connections@[i] != *from),
{
    let relayed = match receipt {
        ComponentReceipt::Store => shared_here,
        _ => false,
    };
    relay_targets(connections, from, relayed)
}

} // verus!
