//! One connection to another client: the messages it sends, and the
//! messages of the current tick that it received.

pub mod connection_id;
pub mod connection_messenger;
pub mod remote_action;
pub mod routing;

use crate::client_id::ClientId;
use crate::clock::unix_time_secs;
use crate::component_sharing::component_type_id::ComponentTypeId;
use crate::connection::connection_id::ConnectionId;
use crate::connection::connection_messenger::{ConnectionError, ConnectionMessenger};
use crate::connection::remote_action::{
    ComponentAction, EntityAction, EventId, EventTimestamp, RemoteAction,
};
use crate::event_map::{admits, EventMap};
use crate::event_sharing::event_type_id::EventTypeId;
use crate::filter::Filter;
use crate::sync_entity_id::SyncEntityId;
use crossbeam::channel::Receiver;
use vstd::prelude::*;

verus! {

/// `crossbeam::channel::Receiver`, carried through opaque.
#[verifier::external_type_specification]
#[verifier::external_body]
#[verifier::reject_recursive_types(T)]
pub struct ExReceiver<T>(Receiver<T>);

/// Calls `Receiver::try_iter` and collects what it yields: the messages
/// that other threads have put into the channel so far. That depends on the
/// other threads, so nothing is stated of the result.
#[verifier::external_body]
fn drain_channel(incoming: &Receiver<RemoteAction>) -> Vec<RemoteAction> {
    incoming.try_iter().collect()
}

/// The number and the send time of the event that `action` carries, if it carries one.
pub open spec fn event_of(action: RemoteAction) -> Option<(u64, u64)> {
    match action {
        RemoteAction::SendEvent { event_id, timestamp, .. } => Some((event_id.0, timestamp.0)),
        _ => None,
    }
}

/// The number of the event that `action` carries, or 0 for other messages.
pub open spec fn event_number(action: RemoteAction) -> u64 {
    match action {
        RemoteAction::SendEvent { event_id, .. } => event_id.0,
        _ => 0,
    }
}

/// The messages of `actions` that are let through, and the seen events
/// afterwards, when they are checked in order against `seen`, the `i`-th
/// with the clock reading `nows[i]`: an event is let through when it is new
/// and recent, and is then recorded; every other message is let through.
pub open spec fn admit_batch(
    actions: Seq<RemoteAction>,
    seen: Map<u64, u64>,
    retention: u64,
    nows: Seq<u64>,
) -> (Seq<RemoteAction>, Map<u64, u64>)
    decreases actions.len(),
{
    if actions.len() == 0 {
        (Seq::empty(), seen)
    } else {
        let last = actions.len() - 1;
        let (kept, now_seen) = admit_batch(actions.drop_last(), seen, retention, nows);
        match event_of(actions[last]) {
            Some((id, timestamp)) => if admits(now_seen, retention, id, timestamp, nows[last]) {
                (kept.push(actions[last]), now_seen.insert(id, timestamp))
            } else {
                (kept, now_seen)
            },
            None => (kept.push(actions[last]), now_seen),
        }
    }
}

/// Checks the received messages in order against the seen events, as
/// [`admit_batch`] says, reading the clock with [`unix_time_secs`] for
/// each event.
pub fn admit_fresh(incoming: Vec<RemoteAction>, event_map: &mut EventMap) -> (kept: Vec<RemoteAction>)
    ensures
        final(event_map).retention_time_secs == old(event_map).retention_time_secs,
        exists|nows: Seq<u64>|
            nows.len() == incoming@.len() && (forall|i: int|
                0 <= i < nows.len() && #[trigger] event_of(incoming@[i]) is Some ==> call_ensures(
                    unix_time_secs,
                    (),
                    nows[i],
                )) && (kept@, final(event_map).seen()) == admit_batch(
                incoming@,
                old(event_map).seen(),
                old(event_map).retention_time_secs,
                nows,
            ),
{
    let ghost src = incoming@;
    let ghost start = event_map.seen();
    let ghost retention = event_map.retention_time_secs;
    let ghost mut nows: Seq<u64> = Seq::empty();
    let mut kept: Vec<RemoteAction> = Vec::new();
    for action in it: incoming.into_iter()
        invariant
            it.seq() == src,
            event_map.retention_time_secs == retention,
            nows.len() == it.index(),
            forall|j: int|
                0 <= j < nows.len() && #[trigger] event_of(src[j]) is Some ==> call_ensures(unix_time_secs, (), nows[j]),
            (kept@, event_map.seen()) == admit_batch(src.take(it.index() as int), start, retention, nows),
    {
        let ghost i = it.index() as int;
        let ghost before = event_map.seen();
        let ghost nows_start = nows;
        proof {
            assert(src.take(i + 1).drop_last() =~= src.take(i));
            assert(action == src[i]);
        }
        let keep = match &action {
            RemoteAction::SendEvent { event_id, timestamp, .. } => {
                let fresh = event_map.valid(event_id, timestamp);
                proof {
                    let now = choose|now: u64|
                        call_ensures(unix_time_secs, (), now) && fresh == admits(before, retention, event_id.0, timestamp.0, now);
                    nows = nows.push(now);
                }
                if fresh {
                    event_map.insert(*event_id, *timestamp);
                }
                fresh
            },
            _ => {
                proof {
                    nows = nows.push(0);
                }
                true
            },
        };
        let ghost kept_before = kept@;
        proof {
            lemma_admit_batch_prefix_nows(src.take(i), start, retention, nows_start, nows);
            assert(admit_batch(src.take(i), start, retention, nows) == (kept_before, before));
        }
        if keep {
            kept.push(action);
        }
        proof {
            let t = src.take(i + 1);
            assert(t.drop_last() =~= src.take(i));
            assert(t[t.len() - 1] == src[i]);
            match event_of(src[i]) {
                Some((id, timestamp)) => {
                    assert(keep == admits(before, retention, id, timestamp, nows[i]));
                },
                None => {},
            }
        }
    }
    proof {
        assert(src.take(src.len() as int) =~= src);
    }
    kept
}

/// No event is let through twice, nor one that was seen before, and every
/// event that is let through is recorded as seen.
pub proof fn lemma_admitted_events_are_new(
    actions: Seq<RemoteAction>,
    seen: Map<u64, u64>,
    retention: u64,
    nows: Seq<u64>,
)
    ensures
        ({
            let (kept, after) = admit_batch(actions, seen, retention, nows);
            &&& forall|k: u64| seen.contains_key(k) ==> #[trigger] after.contains_key(k)
            &&& forall|i: int|
                0 <= i < kept.len() && #[trigger] event_of(kept[i]) is Some ==> {
                    &&& !seen.contains_key(event_number(kept[i]))
                    &&& after.contains_key(event_number(kept[i]))
                }
            &&& forall|i: int, j: int|
                0 <= i < j < kept.len() && #[trigger] event_of(kept[i]) is Some
                    && #[trigger] event_of(kept[j]) is Some ==> event_number(kept[i]) != event_number(kept[j])
        }),
    decreases actions.len(),
{
    if actions.len() > 0 {
        lemma_admitted_events_are_new(actions.drop_last(), seen, retention, nows);
        let (kept0, after0) = admit_batch(actions.drop_last(), seen, retention, nows);
        let (kept, after) = admit_batch(actions, seen, retention, nows);
        let last = actions[actions.len() - 1];
        assert forall|i: int| 0 <= i < kept0.len() implies kept[i] == kept0[i] by {}
        assert forall|k: u64| after0.contains_key(k) implies #[trigger] after.contains_key(k) by {}
    }
}

/// Whether `action` is a message other than an event.
pub open spec fn is_not_event(action: RemoteAction) -> bool {
    event_of(action) is None
}

/// Every message that is not an event is let through, in the order it
/// arrived: the messages other than events are the same before and after
/// the check, whatever was seen before and whatever the clock read.
pub proof fn lemma_admit_keeps_other_messages(
    actions: Seq<RemoteAction>,
    seen: Map<u64, u64>,
    retention: u64,
    nows: Seq<u64>,
)
    ensures
        admit_batch(actions, seen, retention, nows).0.filter(|a: RemoteAction| is_not_event(a))
            == actions.filter(|a: RemoteAction| is_not_event(a)),
    decreases actions.len(),
{
    reveal(Seq::filter);
    let p = |a: RemoteAction| is_not_event(a);
    if actions.len() > 0 {
        let init = actions.drop_last();
        let last = actions[actions.len() - 1];
        lemma_admit_keeps_other_messages(init, seen, retention, nows);
        let (kept0, _) = admit_batch(init, seen, retention, nows);
        let (kept, _) = admit_batch(actions, seen, retention, nows);
        assert(actions.filter(p) == if p(last) {
            init.filter(p).push(last)
        } else {
            init.filter(p)
        });
        if kept.len() > kept0.len() {
            assert(kept == kept0.push(last));
            assert(kept.drop_last() =~= kept0);
            assert(kept.filter(p) == if p(last) {
                kept0.filter(p).push(last)
            } else {
                kept0.filter(p)
            });
        }
    }
}

/// Only the first `actions.len()` clock readings matter.
proof fn lemma_admit_batch_prefix_nows(
    actions: Seq<RemoteAction>,
    seen: Map<u64, u64>,
    retention: u64,
    nows: Seq<u64>,
    longer: Seq<u64>,
)
    requires
        nows.len() >= actions.len(),
        longer.len() >= nows.len(),
        forall|i: int| 0 <= i < nows.len() ==> longer[i] == nows[i],
    ensures
        admit_batch(actions, seen, retention, nows) == admit_batch(actions, seen, retention, longer),
    decreases actions.len(),
{
    if actions.len() > 0 {
        lemma_admit_batch_prefix_nows(actions.drop_last(), seen, retention, nows, longer);
    }
}

/// One connection: the transport, and the messages received for this tick.
pub struct Connection<M> {
    messenger: M,
    current_messanges: Vec<RemoteAction>,
    incoming: Receiver<RemoteAction>,
}

impl<M> Connection<M> {
    /// The transport of this connection.
    pub closed spec fn transport(&self) -> M {
        self.messenger
    }

    /// The messages received for the current tick.
    pub closed spec fn received(&self) -> Seq<RemoteAction> {
        self.current_messanges@
    }
}

impl<M: ConnectionMessenger> Connection<M> {
    /// A connection over `messenger`, reading from `incoming`, with no
    /// message received yet.
    pub fn new(incoming: Receiver<RemoteAction>, messenger: M) -> (created: Self)
        ensures
            created.transport() == messenger,
            created.received() == Seq::<RemoteAction>::empty(),
    {
        Connection { messenger, incoming, current_messanges: Vec::new() }
    }

    /// The transport of this connection.
    pub fn messenger(&self) -> (transport: &M)
        ensures
            *transport == self.transport(),
    {
        &self.messenger
    }

    /// The identifier of this connection: what the transport's
    /// `get_connection_id` returned for this call.
    pub fn get_connection_id(&self) -> (id: ConnectionId)
        ensures
            call_ensures(M::get_connection_id, (&self.transport(),), id),
    {
        self.messenger.get_connection_id()
    }

    /// Announces that a shared entity appeared, with the filters that say
    /// which clients may read and write it. The result is the transport's
    /// answer to that message.
    pub fn entity_added(
        &mut self,
        sync_id: SyncEntityId,
        client_id: ClientId,
        client_read_filter: Filter<ClientId>,
        client_write_filter: Filter<ClientId>,
    ) -> (sent: Result<(), ConnectionError>)
        ensures
            final(self).transport() == old(self).transport(),
            final(self).received() == old(self).received(),
            call_ensures(
                M::send_action,
                (
                    &old(self).transport(),
                    RemoteAction::Entity {
                        action: EntityAction::AddOrUpdate { client_read_filter, client_write_filter },
                        id: sync_id,
                        client_id,
                    },
                ),
                sent,
            ),
    {
        self.messenger.send_action(
            RemoteAction::Entity {
                action: EntityAction::AddOrUpdate { client_read_filter, client_write_filter },
                id: sync_id,
                client_id,
            },
        )
    }

    /// Announces new filters of a shared entity; the message is the same as
    /// the one of [`Connection::entity_added`].
    pub fn entity_updated(
        &mut self,
        sync_id: SyncEntityId,
        client_id: ClientId,
        client_read_filter: Filter<ClientId>,
        client_write_filter: Filter<ClientId>,
    ) -> (sent: Result<(), ConnectionError>)
        ensures
            final(self).transport() == old(self).transport(),
            final(self).received() == old(self).received(),
            call_ensures(
                M::send_action,
                (
                    &old(self).transport(),
                    RemoteAction::Entity {
                        action: EntityAction::AddOrUpdate { client_read_filter, client_write_filter },
                        id: sync_id,
                        client_id,
                    },
                ),
                sent,
            ),
    {
        self.messenger.send_action(
            RemoteAction::Entity {
                action: EntityAction::AddOrUpdate { client_read_filter, client_write_filter },
                id: sync_id,
                client_id,
            },
        )
    }

    /// Announces that a shared entity went away. The result is the
    /// transport's answer to that message.
    pub fn entity_removed(&mut self, sync_id: SyncEntityId, client_id: ClientId) -> (sent: Result<(), ConnectionError>)
        ensures
            final(self).transport() == old(self).transport(),
            final(self).received() == old(self).received(),
            call_ensures(
                M::send_action,
                (&old(self).transport(), RemoteAction::Entity { action: EntityAction::Remove, id: sync_id, client_id }),
                sent,
            ),
    {
        self.messenger.send_action(
            RemoteAction::Entity { action: EntityAction::Remove, id: sync_id, client_id },
        )
    }

    /// Sends a component's data; `component_data_raw` is the component as
    /// this connection's transport serialised it, and `None` when that
    /// failed, in which case nothing is sent and the call succeeds;
    /// otherwise the result is the transport's answer to the message.
    pub fn component_added(
        &mut self,
        entity_id: SyncEntityId,
        component_type_id: ComponentTypeId,
        component_data_raw: Option<Vec<u8>>,
        client_id: ClientId,
    ) -> (sent: Result<(), ConnectionError>)
        ensures
            component_data_raw is None ==> sent is Ok,
            (component_data_raw matches Some(raw) ==> call_ensures(
                M::send_action,
                (
                    &old(self).transport(),
                    RemoteAction::Component {
                        action: ComponentAction::AddOrUpdate { component_data_raw: raw },
                        component_type_id,
                        entity_id,
                        client_id,
                    },
                ),
                sent,
            )),
            final(self).transport() == old(self).transport(),
            final(self).received() == old(self).received(),
    {
        match component_data_raw {
            None => Ok(()),
            Some(component_data_raw) => self.messenger.send_action(
                RemoteAction::Component {
                    action: ComponentAction::AddOrUpdate { component_data_raw },
                    component_type_id,
                    entity_id,
                    client_id,
                },
            ),
        }
    }

    /// Sends a component's new data; the message is the same as the one of
    /// [`Connection::component_added`].
    pub fn componend_updated(
        &mut self,
        entity_id: SyncEntityId,
        component_type_id: ComponentTypeId,
        component_data_raw: Option<Vec<u8>>,
        client_id: ClientId,
    ) -> (sent: Result<(), ConnectionError>)
        ensures
            component_data_raw is None ==> sent is Ok,
            (component_data_raw matches Some(raw) ==> call_ensures(
                M::send_action,
                (
                    &old(self).transport(),
                    RemoteAction::Component {
                        action: ComponentAction::AddOrUpdate { component_data_raw: raw },
                        component_type_id,
                        entity_id,
                        client_id,
                    },
                ),
                sent,
            )),
            final(self).transport() == old(self).transport(),
            final(self).received() == old(self).received(),
    {
        match component_data_raw {
            None => Ok(()),
            Some(component_data_raw) => self.messenger.send_action(
                RemoteAction::Component {
                    action: ComponentAction::AddOrUpdate { component_data_raw },
                    component_type_id,
                    entity_id,
                    client_id,
                },
            ),
        }
    }

    /// Announces that a shared component went away. The result is the
    /// transport's answer to that message.
    pub fn component_removed(
        &mut self,
        entity_id: SyncEntityId,
        component_type_id: ComponentTypeId,
        client_id: ClientId,
    ) -> (sent: Result<(), ConnectionError>)
        ensures
            final(self).transport() == old(self).transport(),
            final(self).received() == old(self).received(),
            call_ensures(
                M::send_action,
                (
                    &old(self).transport(),
                    RemoteAction::Component {
                        action: ComponentAction::Remove,
                        component_type_id,
                        entity_id,
                        client_id,
                    },
                ),
                sent,
            ),
    {
        self.messenger.send_action(
            RemoteAction::Component {
                action: ComponentAction::Remove,
                component_type_id,
                entity_id,
                client_id,
            },
        )
    }

    /// Sends an event; `event_data_raw` is the event as this connection's
    /// transport serialised it, and `None` when that failed, in which case
    /// nothing is sent and the call succeeds; otherwise the result is the
    /// transport's answer to the message.
    pub fn send_event(
        &mut self,
        event_type_id: EventTypeId,
        event_data_raw: Option<Vec<u8>>,
        client_id: ClientId,
        event_id: EventId,
        event_timestamp: EventTimestamp,
        client_filter: Filter<ClientId>,
    ) -> (sent: Result<(), ConnectionError>)
        ensures
            event_data_raw is None ==> sent is Ok,
            (event_data_raw matches Some(raw) ==> call_ensures(
                M::send_action,
                (
                    &old(self).transport(),
                    RemoteAction::SendEvent {
                        event_type_id,
                        event_data_raw: raw,
                        client_id,
                        event_id,
                        timestamp: event_timestamp,
                        client_filter,
                    },
                ),
                sent,
            )),
            final(self).transport() == old(self).transport(),
            final(self).received() == old(self).received(),
    {
        match event_data_raw {
            None => Ok(()),
            Some(event_data_raw) => self.send_event_raw(
                event_type_id,
                event_data_raw,
                client_id,
                event_id,
                event_timestamp,
                client_filter,
            ),
        }
    }

    /// Sends an event that is already serialised, such as one received from
    /// another connection and passed on. The result is the transport's
    /// answer to that message.
    pub fn send_event_raw(
        &mut self,
        event_type_id: EventTypeId,
        event_data_raw: Vec<u8>,
        client_id: ClientId,
        event_id: EventId,
        event_timestamp: EventTimestamp,
        client_filter: Filter<ClientId>,
    ) -> (sent: Result<(), ConnectionError>)
        ensures
            final(self).transport() == old(self).transport(),
            final(self).received() == old(self).received(),
            call_ensures(
                M::send_action,
                (
                    &old(self).transport(),
                    RemoteAction::SendEvent {
                        event_type_id,
                        event_data_raw,
                        client_id,
                        event_id,
                        timestamp: event_timestamp,
                        client_filter,
                    },
                ),
                sent,
            ),
    {
        self.messenger.send_action(
            RemoteAction::SendEvent {
                event_type_id,
                event_data_raw,
                client_id,
                event_id,
                timestamp: event_timestamp,
                client_filter,
            },
        )
    }

    /// The messages received for the current tick.
    pub fn messages(&self) -> (current: &[RemoteAction])
        ensures
            current@ == self.received(),
    {
        self.current_messanges.as_slice()
    }

    /// Takes every message that arrived on this connection's channel since
    /// the last call, in the order they arrived. What arrived depends on the
    /// other side of the channel, so nothing is stated of it.
    pub fn arrived(&self) -> Vec<RemoteAction> {
        drain_channel(&self.incoming)
    }

    /// Replaces the messages of the last tick with exactly what
    /// [`Connection::arrived`] hands over, in order, dropping only events
    /// that were seen before or are too old at the clock reading taken for
    /// them (see [`admit_batch`]), and recording the events that are let
    /// through.
    pub fn collect_messages(&mut self, event_map: &mut EventMap)
        ensures
            final(self).transport() == old(self).transport(),
            final(event_map).retention_time_secs == old(event_map).retention_time_secs,
            exists|incoming: Vec<RemoteAction>, nows: Seq<u64>|
                {
                    &&& call_ensures(Connection::<M>::arrived, (&*old(self),), incoming)
                    &&& nows.len() == incoming@.len()
                    &&& forall|i: int|
                        0 <= i < nows.len() && #[trigger] event_of(incoming@[i]) is Some ==> call_ensures(
                            unix_time_secs,
                            (),
                            nows[i],
                        )
                    &&& (final(self).received(), final(event_map).seen()) == admit_batch(
                        incoming@,
                        old(event_map).seen(),
                        old(event_map).retention_time_secs,
                        nows,
                    )
                },
    {
        let arrived = self.arrived();
        self.current_messanges = admit_fresh(arrived, event_map);
    }
}

} // verus!
