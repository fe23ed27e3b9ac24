//! Picking out, from a tick's received messages, the ones one part of the
//! library handles.

use crate::component_sharing::component_type_id::ComponentTypeId;
use crate::connection::connection_id::{lemma_connection_id_concrete_eq, ConnectionId};
use crate::connection::remote_action::RemoteAction;
use crate::event_sharing::event_type_id::EventTypeId;
use vstd::prelude::*;

verus! {

/// Which messages to pick.
#[derive(Debug, Clone, Copy, PartialEq, Eq, Structural)]
pub enum MessageKind {
    /// Entity messages.
    Entity,
    /// Component messages about components of this kind.
    Component(ComponentTypeId),
    /// Events of this kind.
    Event(EventTypeId),
}

/// Whether `message` is of the kind `kind`.
pub open spec fn is_of_kind(message: RemoteAction, kind: MessageKind) -> bool {
    match kind {
        MessageKind::Entity => message is Entity,
        MessageKind::Component(type_id) => match message {
            RemoteAction::Component { component_type_id, .. } => component_type_id == type_id,
            _ => false,
        },
        MessageKind::Event(type_id) => match message {
            RemoteAction::SendEvent { event_type_id, .. } => event_type_id == type_id,
            _ => false,
        },
    }
}

/// See [`is_of_kind`].
pub fn message_is_of_kind(message: &RemoteAction, kind: MessageKind) -> (matches: bool)
    ensures
        matches == is_of_kind(*message, kind),
{
    match kind {
        MessageKind::Entity => match message {
            RemoteAction::Entity { .. } => true,
            _ => false,
        },
        MessageKind::Component(type_id) => match message {
            RemoteAction::Component { component_type_id, .. } => component_type_id.0 == type_id.0,
            _ => false,
        },
        MessageKind::Event(type_id) => match message {
            RemoteAction::SendEvent { event_type_id, .. } => event_type_id.0 == type_id.0,
            _ => false,
        },
    }
}

/// The positions of the messages of kind `kind`, in increasing order:
/// every listed position holds such a message, and every such message is listed.
pub fn messages_of_kind(messages: &[RemoteAction], kind: MessageKind) -> (positions: Vec<usize>)
    ensures
        forall|k: int| 0 <= k < positions@.len() ==> positions@[k] < messages@.len()
            && is_of_kind(messages@[positions@[k] as int], kind),
        forall|i: int| 0 <= i < messages@.len() && is_of_kind(messages@[i], kind)
            ==> positions@.contains(i as usize),
        forall|a: int, b: int| 0 <= a < b < positions@.len() ==> positions@[a] < positions@[b],
{
    let mut positions: Vec<usize> = Vec::new();
    let mut i: usize = 0;
    while i < messages.len()
        invariant
            i <= messages@.len(),
            forall|k: int| 0 <= k < positions@.len() ==> positions@[k] < i
                && is_of_kind(messages@[positions@[k] as int], kind),
            forall|j: int| 0 <= j < i && is_of_kind(messages@[j], kind) ==> positions@.contains(j as usize),
            forall|a: int, b: int| 0 <= a < b < positions@.len() ==> positions@[a] < positions@[b],
        decreases messages@.len() - i,
    {
        if message_is_of_kind(&messages[i], kind) {
            let ghost before = positions@;
            positions.push(i);
            proof {
                assert forall|j: int| 0 <= j < i + 1 && is_of_kind(messages@[j], kind) implies positions@.contains(j as usize) by {
                    if j < i {
                        let w = choose|w: int| 0 <= w < before.len() && before[w] == j as usize;
                        assert(positions@[w] == j as usize);
                    } else {
                        assert(positions@[before.len() as int] == j as usize);
                    }
                }
            }
        }
        i = i + 1;
    }
    positions
}

/// For each connection of `connections`, whether a message that arrived on
/// `from` is passed on to it: when `relayed` holds, to every connection but
/// `from`; otherwise to none.
pub fn relay_targets(connections: &Vec<ConnectionId>, from: &ConnectionId, relayed: bool) -> (targets: Vec<bool>)
    ensures
        targets@.len() == connections@.len(),
        forall|i: int| 0 <= i < connections@.len() ==> targets@[i] == (relayed && connections@[i] != *from),
{
    broadcast use lemma_connection_id_concrete_eq;

    let mut targets: Vec<bool> = Vec::new();
    let mut i: usize = 0;
    while i < connections.len()
        invariant
            i <= connections@.len(),
            targets@.len() == i,
            forall|j: int| 0 <= j < i ==> targets@[j] == (relayed && connections@[j] != *from),
        decreases connections@.len() - i,
    {
        let same = connections[i] == *from;
        proof {
            broadcast use lemma_connection_id_concrete_eq;
            assert(vstd::laws_eq::obeys_concrete_eq::<ConnectionId>());
            reveal(vstd::laws_eq::obeys_concrete_eq);
            assert(same == (connections@[i as int] == *from));
        }
        targets.push(relayed && !same);
        i = i + 1;
    }
    targets
}

} // verus!
