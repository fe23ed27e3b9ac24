use bevy_hookup_core::external_component::ExternalComponent;
use bevy_hookup_core::hook_session::{SessionId, SessionMessenger};
use bevy_hookup_core::owner_component::Owner;
use bevy_hookup_core::presence::Presence;
use bevy_hookup_core::session::{Session, SessionChannels};
use bevy_hookup_core::session_action::SessionAction;
use bevy_hookup_core::session_filter::SessionFilter;
use bevy_hookup_core::session_handler::SessionHandler;
use bevy_hookup_core::shared::Shared;
use bevy_hookup_core::sync_component_id::SyncComponentId;
use bevy_hookup_core::sync_entity::{session_entity_step, SessionEntityStep, SyncEntityOwner};
use bevy_hookup_core::sync_entity_id::SyncEntityId;
use std::sync::{Arc, Mutex};

struct Pipe {
    id: SessionId,
    handled: Arc<Mutex<Vec<usize>>>,
    channels: SessionChannels<u32>,
}

impl SessionMessenger<u32> for Pipe {
    fn get_session_id(&self) -> SessionId {
        self.id
    }

    fn get_channels(&self) -> SessionChannels<u32> {
        self.channels.clone()
    }

    fn handle_actions(&mut self, actions: &Vec<SessionAction<u32>>) {
        self.handled.lock().unwrap().push(actions.len());
    }
}

fn pipe(id: SessionId) -> (Pipe, Arc<Mutex<Vec<usize>>>) {
    let (sender, receiver) = crossbeam::channel::unbounded();
    let handled = Arc::new(Mutex::new(Vec::new()));
    (Pipe { id, handled: handled.clone(), channels: SessionChannels { sender, receiver } }, handled)
}

#[test]
fn session_filter_variants() {
    let a = SessionId::default();
    let b = SessionId::default();
    assert!(SessionFilter::AllowAll.allow_session(&a));
    assert!(!SessionFilter::AllowNone.allow_session(&a));
    assert!(!SessionFilter::Blacklist(vec![a]).allow_session(&a));
    assert!(SessionFilter::Blacklist(vec![a]).allow_session(&b));
    assert!(SessionFilter::Whitelist(vec![a]).allow_session(&a));
    assert!(!SessionFilter::Whitelist(vec![a]).allow_session(&b));
}

#[test]
fn session_collects_then_pushes_once() {
    let (messenger, handled) = pipe(SessionId::default());
    let channels = messenger.get_channels();
    let mut session = Session::new(Box::new(messenger), channels);
    session.push_messages();
    assert!(handled.lock().unwrap().is_empty());
    session.entity_added(SyncEntityId::new());
    session.component_added(SyncEntityId::new(), 4);
    session.send_event(9);
    session.push_messages();
    session.push_messages();
    assert_eq!(*handled.lock().unwrap(), vec![3]);
}

#[test]
fn handler_keeps_one_session_per_id() {
    let a = SessionId::default();
    let mut handler = SessionHandler::<u32>::new();
    handler.add_session(pipe(a).0);
    handler.add_session(pipe(SessionId::default()).0);
    handler.add_session(pipe(a).0);
    let sessions = handler.get_sessions();
    assert_eq!(sessions.len(), 2);
    assert_eq!(sessions[0].get_session_id(), a);
}

#[test]
fn owner_builders_and_presence() {
    let a = SessionId::default();
    let owner = Owner::new(5u8).with_read_filter(SessionFilter::Whitelist(vec![a]));
    assert_eq!(*owner.get_inner(), 5);
    assert!(!owner.remove);
    let mut owner = owner;
    owner.update_inner(6);
    assert_eq!(owner.inner, 6);
    let step = owner.plan(&a, None);
    assert_eq!(step, Presence::Add);
    owner.record(a, step);
    assert_eq!(owner.on_sessions, vec![a]);
    assert_eq!(owner.plan(&a, Some(&SessionFilter::AllowNone)), Presence::Forget);
    let b = SessionId::default();
    assert_eq!(owner.plan(&b, None), Presence::Skip);
}

#[test]
fn sync_entity_owner_defaults() {
    let owner = SyncEntityOwner::new();
    assert!(matches!(owner.session_read_filter, SessionFilter::AllowAll));
    assert!(matches!(owner.session_write_filter, SessionFilter::AllowNone));
    assert!(!owner.remove && owner.on_sessions.is_empty());
}

#[test]
fn counterpart_mirrors_entity_and_keeps_component() {
    let named = ExternalComponent::new(SyncEntityId::new(), SyncComponentId::new());
    let mirrored = named.counterpart();
    assert_ne!(mirrored.entity_id, named.entity_id);
    assert_eq!(mirrored.component_id, named.component_id);
    assert_eq!(mirrored.counterpart(), named);
}

#[test]
fn shared_value_is_replaced() {
    let id = SyncComponentId::new();
    let mut shared = Shared::new(1u8, id);
    shared.update_inner(2);
    assert_eq!((shared.inner, shared.component_id), (2, id));
}

#[test]
fn session_entity_messages() {
    let id = SyncEntityId::new();
    let add: SessionAction<u32> = SessionAction::AddEntity { id };
    let remove: SessionAction<u32> = SessionAction::RemoveEntity { id };
    let event: SessionAction<u32> = SessionAction::SendEvent { event_data: 1 };
    assert_eq!(session_entity_step(&add, false), SessionEntityStep::Spawn);
    assert_eq!(session_entity_step(&add, true), SessionEntityStep::Ignore);
    assert_eq!(session_entity_step(&remove, true), SessionEntityStep::Despawn);
    assert_eq!(session_entity_step(&remove, false), SessionEntityStep::Ignore);
    assert_eq!(session_entity_step(&event, true), SessionEntityStep::Requeue);
}

#[test]
fn owner_pass_announces_to_allowed_sessions_only() {
    let a = SessionId::default();
    let b = SessionId::default();
    let mut owner = SyncEntityOwner::new();
    owner.session_read_filter = SessionFilter::Blacklist(vec![b]);
    let steps = owner.run_pass(&vec![a, b]);
    assert_eq!(steps, vec![Presence::Add, Presence::Skip]);
    assert_eq!(owner.on_sessions, vec![a]);
    owner.session_read_filter = SessionFilter::AllowNone;
    let steps = owner.run_pass(&vec![a, b]);
    assert_eq!(steps, vec![Presence::Remove, Presence::Skip]);
    assert!(owner.on_sessions.is_empty());
}

#[test]
fn added_session_is_stored_fresh_under_its_id() {
    let a = SessionId::default();
    let mut handler = SessionHandler::<u32>::new();
    let (first, first_handled) = pipe(a);
    handler.add_session(first);
    handler.get_sessions()[0].entity_added(SyncEntityId::new());
    let (second, second_handled) = pipe(a);
    handler.add_session(second);
    let sessions = handler.get_sessions();
    assert_eq!(sessions.len(), 1);
    sessions[0].push_messages();
    assert!(first_handled.lock().unwrap().is_empty());
    assert!(second_handled.lock().unwrap().is_empty());
    sessions[0].send_event(1);
    sessions[0].push_messages();
    assert_eq!(*second_handled.lock().unwrap(), vec![1]);
}

#[test]
fn sessions_are_handed_out_in_the_order_they_were_added() {
    let a = SessionId::default();
    let b = SessionId::default();
    let c = SessionId::default();
    let mut handler = SessionHandler::<u32>::new();
    handler.add_session(pipe(a).0);
    handler.add_session(pipe(b).0);
    handler.add_session(pipe(c).0);
    let ids: Vec<SessionId> = handler.get_sessions().iter().map(|session| session.get_session_id()).collect();
    assert_eq!(ids, vec![a, b, c]);
}
