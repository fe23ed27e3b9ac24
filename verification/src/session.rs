//! One session: the messages collected during a tick, handed to the
//! transport together.

use crate::hook_session::{SessionId, SessionMessenger};
use crate::session_action::SessionAction;
use crate::sync_entity_id::SyncEntityId;
use crossbeam::channel::{Receiver, Sender};
use vstd::prelude::*;

verus! {

/// `crossbeam::channel::Sender`, carried through opaque.
#[verifier::external_type_specification]
#[verifier::external_body]
#[verifier::reject_recursive_types(T)]
pub struct ExSender<T>(Sender<T>);

/// `Sender::clone` gives another handle to the same channel; the handle is
/// opaque here, so nothing is stated of it.
pub assume_specification<T>[ <Sender<T> as Clone>::clone ](sender: &Sender<T>) -> Sender<T>;

/// `Receiver::clone` gives another handle to the same channel; the handle is
/// opaque here, so nothing is stated of it.
pub assume_specification<T>[ <Receiver<T> as Clone>::clone ](receiver: &Receiver<T>) -> Receiver<T>;

/// The channels a session's messages travel on.
#[derive(Clone)]
#[verifier::reject_recursive_types(TSendables)]
pub struct SessionChannels<TSendables> {
    pub sender: Sender<SessionAction<TSendables>>,
    pub receiver: Receiver<SessionAction<TSendables>>,
}

/// A session: its transport, the messages collected for the current tick,
/// and its channels. The transport is boxed unless another type is named.
#[verifier::reject_recursive_types(TSendables)]
pub struct Session<TSendables, M = Box<dyn SessionMessenger<TSendables>>> {
    messenger: M,
    message_collection: Vec<SessionAction<TSendables>>,
    pub channels: SessionChannels<TSendables>,
}

impl<TSendables, M: SessionMessenger<TSendables>> Session<TSendables, M> {
    /// The transport of this session.
    pub closed spec fn transport(&self) -> M {
        self.messenger
    }

    /// The channels of this session.
    pub closed spec fn channels(&self) -> SessionChannels<TSendables> {
        self.channels
    }

    /// The messages collected and not yet handed to the transport.
    pub closed spec fn pending(&self) -> Seq<SessionAction<TSendables>> {
        self.message_collection@
    }

    /// A session over `messenger` with no message collected.
    pub fn new(messenger: M, channels: SessionChannels<TSendables>) -> (created: Self)
        ensures
            created.transport() == messenger,
            created.channels() == channels,
            created.pending() == Seq::<SessionAction<TSendables>>::empty(),
    {
        Session { messenger, channels, message_collection: Vec::new() }
    }

    /// The identifier of this session: what the transport's
    /// `get_session_id` returned for this call.
    pub fn get_session_id(&self) -> (id: SessionId)
        ensures
            call_ensures(M::get_session_id, (&self.transport(),), id),
    {
        self.messenger.get_session_id()
    }

    /// Collects the announcement of a shared entity.
    pub fn entity_added(&mut self, sync_id: SyncEntityId)
        ensures
            final(self).transport() == old(self).transport(),
            final(self).channels() == old(self).channels(),
            final(self).pending() == old(self).pending().push(SessionAction::AddEntity { id: sync_id }),
    {
        self.message_collection.push(SessionAction::AddEntity { id: sync_id });
    }

    /// Collects the removal of a shared entity.
    pub fn entity_removed(&mut self, sync_id: SyncEntityId)
        ensures
            final(self).transport() == old(self).transport(),
            final(self).channels() == old(self).channels(),
            final(self).pending() == old(self).pending().push(SessionAction::RemoveEntity { id: sync_id }),
    {
        self.message_collection.push(SessionAction::RemoveEntity { id: sync_id });
    }

    /// Collects a new shared component.
    pub fn component_added(&mut self, entity_id: SyncEntityId, component_data: TSendables)
        ensures
            final(self).transport() == old(self).transport(),
            final(self).channels() == old(self).channels(),
            final(self).pending() == old(self).pending().push(
                SessionAction::AddComponent { component_data, entity_id },
            ),
    {
        self.message_collection.push(SessionAction::AddComponent { component_data, entity_id });
    }

    /// Collects the new state of a shared component.
    pub fn componend_updated(&mut self, entity_id: SyncEntityId, component_data: TSendables)
        ensures
            final(self).transport() == old(self).transport(),
            final(self).channels() == old(self).channels(),
            final(self).pending() == old(self).pending().push(
                SessionAction::UpdateComponent { component_data, entity_id },
            ),
    {
        self.message_collection.push(SessionAction::UpdateComponent { component_data, entity_id });
    }

    /// Collects the removal of a shared component.
    pub fn component_removed(&mut self, entity_id: SyncEntityId)
        ensures
            final(self).transport() == old(self).transport(),
            final(self).channels() == old(self).channels(),
            final(self).pending() == old(self).pending().push(SessionAction::RemoveComponent { entity_id }),
    {
        self.message_collection.push(SessionAction::RemoveComponent { entity_id });
    }

    /// Collects an event.
    pub fn send_event(&mut self, event_data: TSendables)
        ensures
            final(self).transport() == old(self).transport(),
            final(self).channels() == old(self).channels(),
            final(self).pending() == old(self).pending().push(SessionAction::SendEvent { event_data }),
    {
        self.message_collection.push(SessionAction::SendEvent { event_data });
    }

    /// Hands the collected messages to the transport's `handle_actions`,
    /// once and in the order they were collected, when there are any, and
    /// starts a new collection. With nothing collected the transport is left
    /// alone.
    pub fn push_messages(&mut self)
        ensures
            final(self).pending() == Seq::<SessionAction<TSendables>>::empty(),
            final(self).channels() == old(self).channels(),
            old(self).pending().len() == 0 ==> final(self).transport() == old(self).transport(),
            old(self).pending().len() > 0 ==> exists|transport: &mut M, batch: &Vec<SessionAction<TSendables>>|
                {
                    &&& batch@ == old(self).pending()
                    &&& mut_ref_current(transport) == old(self).transport()
                    &&& mut_ref_future(transport) == final(self).transport()
                    &&& call_ensures(M::handle_actions, (transport, batch), ())
                },
    {
        if self.message_collection.len() == 0 {
            return;
        }
        self.messenger.handle_actions(&self.message_collection);
        self.message_collection.clear();
    }
}

/// A boxed transport serves as the transport it holds.
impl<TSendables, S: SessionMessenger<TSendables> + ?Sized> SessionMessenger<TSendables> for Box<S> {
    fn get_session_id(&self) -> SessionId {
        (**self).get_session_id()
    }

    fn get_channels(&self) -> SessionChannels<TSendables> {
        (**self).get_channels()
    }

    fn handle_actions(&mut self, actions: &Vec<SessionAction<TSendables>>) {
        (**self).handle_actions(actions)
    }

    fn pushes_to_same_world(&self) -> bool {
        (**self).pushes_to_same_world()
    }
}

} // verus!
