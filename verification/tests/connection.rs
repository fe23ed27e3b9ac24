use std::sync::{Arc, Mutex};

use bevy_hookup_core::client_id::ClientId;
use bevy_hookup_core::component_sharing::component_type_id::ComponentTypeId;
use bevy_hookup_core::connection::connection_id::ConnectionId;
use bevy_hookup_core::connection::connection_messenger::{ConnectionError, ConnectionMessenger};
use bevy_hookup_core::connection::remote_action::{
    ComponentAction, EntityAction, EventId, EventTimestamp, RemoteAction,
};
use bevy_hookup_core::connection::routing::{messages_of_kind, relay_targets, MessageKind};
use bevy_hookup_core::connection::{admit_fresh, Connection};
use bevy_hookup_core::event_map::EventMap;
use bevy_hookup_core::event_sharing::event_type_id::EventTypeId;
use bevy_hookup_core::event_sharing::receive::event_receipt;
use bevy_hookup_core::filter::Filter;
use bevy_hookup_core::sync_entity_id::SyncEntityId;

struct Recorder {
    id: ConnectionId,
    sent: Arc<Mutex<Vec<RemoteAction>>>,
    fail: bool,
}

impl ConnectionMessenger for Recorder {
    fn get_connection_id(&self) -> ConnectionId {
        self.id
    }

    fn send_action(&self, action: RemoteAction) -> Result<(), ConnectionError> {
        if self.fail {
            return Err(ConnectionError { message: "closed".to_string() });
        }
        self.sent.lock().unwrap().push(action);
        Ok(())
    }
}

fn connection(fail: bool) -> (Connection<Recorder>, Arc<Mutex<Vec<RemoteAction>>>, crossbeam::channel::Sender<RemoteAction>) {
    let sent = Arc::new(Mutex::new(Vec::new()));
    let (tx, rx) = crossbeam::channel::unbounded();
    let recorder = Recorder { id: ConnectionId::default(), sent: sent.clone(), fail };
    (Connection::new(rx, recorder), sent, tx)
}

fn event(id: u64, timestamp: u64) -> RemoteAction {
    RemoteAction::SendEvent {
        event_type_id: EventTypeId(1),
        event_data_raw: vec![1, 2],
        client_id: ClientId::default(),
        event_id: EventId(id),
        timestamp: EventTimestamp(timestamp),
        client_filter: Filter::allow_all(),
    }
}

#[test]
fn connection_reports_its_transport_id() {
    let (connection, _, _) = connection(false);
    assert_eq!(connection.get_connection_id(), connection.messenger().id);
    assert!(connection.messages().is_empty());
}

#[test]
fn entity_messages_carry_their_filters() {
    let (mut connection, sent, _) = connection(false);
    let id = SyncEntityId::new();
    let client = ClientId::default();
    connection.entity_added(id, client, Filter::allow_all(), Filter::allow_none()).unwrap();
    connection.entity_removed(id, client).unwrap();
    let sent = sent.lock().unwrap();
    assert_eq!(sent.len(), 2);
    match &sent[0] {
        RemoteAction::Entity {
            action: EntityAction::AddOrUpdate { client_read_filter, client_write_filter },
            id: sent_id,
            client_id,
        } => {
            assert_eq!(*sent_id, id);
            assert_eq!(*client_id, client);
            assert_eq!(*client_read_filter, Filter::allow_all());
            assert_eq!(*client_write_filter, Filter::allow_none());
        }
        other => panic!("unexpected {other:?}"),
    }
    assert!(matches!(&sent[1], RemoteAction::Entity { action: EntityAction::Remove, .. }));
}

#[test]
fn unserialisable_component_is_skipped_without_error() {
    let (mut connection, sent, _) = connection(true);
    let result = connection.component_added(SyncEntityId::new(), ComponentTypeId(3), None, ClientId::default());
    assert!(result.is_ok());
    assert!(sent.lock().unwrap().is_empty());
}

#[test]
fn component_data_is_sent_as_given() {
    let (mut connection, sent, _) = connection(false);
    connection
        .componend_updated(SyncEntityId::new(), ComponentTypeId(3), Some(vec![9, 8]), ClientId::default())
        .unwrap();
    let sent = sent.lock().unwrap();
    match &sent[0] {
        RemoteAction::Component {
            action: ComponentAction::AddOrUpdate { component_data_raw },
            component_type_id,
            ..
        } => {
            assert_eq!(component_data_raw, &vec![9, 8]);
            assert_eq!(*component_type_id, ComponentTypeId(3));
        }
        other => panic!("unexpected {other:?}"),
    };
}

#[test]
fn transport_failure_is_reported() {
    let (mut connection, _, _) = connection(true);
    let result = connection.component_removed(SyncEntityId::new(), ComponentTypeId(3), ClientId::default());
    assert_eq!(result.unwrap_err().message, "closed");
}

#[test]
fn events_are_sent_with_their_identity() {
    let (mut connection, sent, _) = connection(false);
    connection
        .send_event(EventTypeId(5), Some(vec![4]), ClientId::default(), EventId(77), EventTimestamp(3), Filter::allow_none())
        .unwrap();
    assert!(connection
        .send_event(EventTypeId(5), None, ClientId::default(), EventId(78), EventTimestamp(3), Filter::allow_none())
        .is_ok());
    let sent = sent.lock().unwrap();
    assert_eq!(sent.len(), 1);
    assert!(matches!(&sent[0], RemoteAction::SendEvent { event_id: EventId(77), timestamp: EventTimestamp(3), .. }));
}

#[test]
fn duplicate_and_old_events_are_dropped() {
    let now = EventTimestamp::default().0;
    let mut map = EventMap::default();
    map.insert(EventId(1), EventTimestamp(now));
    let incoming = vec![
        event(1, now),
        event(2, now),
        RemoteAction::Entity { action: EntityAction::Remove, id: SyncEntityId::new(), client_id: ClientId::default() },
        event(2, now),
        event(3, now.saturating_sub(10_000)),
        event(4, now),
    ];
    let kept = admit_fresh(incoming, &mut map);
    assert_eq!(kept.len(), 3);
    assert!(matches!(&kept[0], RemoteAction::SendEvent { event_id: EventId(2), .. }));
    assert!(matches!(&kept[1], RemoteAction::Entity { .. }));
    assert!(matches!(&kept[2], RemoteAction::SendEvent { event_id: EventId(4), .. }));
    assert!(map.map.contains_key(&2) && map.map.contains_key(&4) && !map.map.contains_key(&3));
}

#[test]
fn collected_messages_replace_the_last_tick() {
    let now = EventTimestamp::default().0;
    let (mut connection, _, tx) = connection(false);
    let mut map = EventMap::default();
    tx.send(event(10, now)).unwrap();
    tx.send(event(10, now)).unwrap();
    connection.collect_messages(&mut map);
    assert_eq!(connection.messages().len(), 1);
    connection.collect_messages(&mut map);
    assert!(connection.messages().is_empty());
}

#[test]
fn messages_are_picked_by_kind() {
    let messages = vec![
        event(1, 0),
        RemoteAction::Component {
            action: ComponentAction::Remove,
            component_type_id: ComponentTypeId(7),
            entity_id: SyncEntityId::new(),
            client_id: ClientId::default(),
        },
        RemoteAction::Entity { action: EntityAction::Remove, id: SyncEntityId::new(), client_id: ClientId::default() },
        RemoteAction::Component {
            action: ComponentAction::Remove,
            component_type_id: ComponentTypeId(8),
            entity_id: SyncEntityId::new(),
            client_id: ClientId::default(),
        },
        event(2, 0),
    ];
    assert_eq!(messages_of_kind(&messages, MessageKind::Component(ComponentTypeId(7))), vec![1]);
    assert_eq!(messages_of_kind(&messages, MessageKind::Entity), vec![2]);
    assert_eq!(messages_of_kind(&messages, MessageKind::Event(EventTypeId(1))), vec![0, 4]);
    assert!(messages_of_kind(&messages, MessageKind::Event(EventTypeId(2))).is_empty());
}

#[test]
fn relay_skips_the_source_connection() {
    let ids = vec![ConnectionId::default(), ConnectionId::default(), ConnectionId::default()];
    assert_eq!(relay_targets(&ids, &ids[1], true), vec![true, false, true]);
    assert_eq!(relay_targets(&ids, &ids[1], false), vec![false, false, false]);
    assert!(relay_targets(&Vec::new(), &ids[0], true).is_empty());
}

#[test]
fn event_receipt_delivers_by_filter_and_always_reshares() {
    let local = ClientId::default();
    let sender = ClientId::default();
    let from = ConnectionId::default();
    let message = RemoteAction::SendEvent {
        event_type_id: EventTypeId(7),
        event_data_raw: vec![3, 4],
        client_id: sender,
        event_id: EventId(11),
        timestamp: EventTimestamp(12),
        client_filter: Filter::Blacklist(vec![local]),
    };
    let receipt = event_receipt(message, from, &local).unwrap();
    assert!(!receipt.deliver);
    assert_eq!(receipt.reshare.event_data, vec![3, 4]);
    assert_eq!(receipt.reshare.event_type_id, EventTypeId(7));
    assert_eq!(receipt.reshare.event_id, EventId(11));
    assert_eq!(receipt.reshare.timestamp, EventTimestamp(12));
    assert_eq!(receipt.reshare.from_connection, from);
    assert_eq!(receipt.reshare.from_client, sender);
    assert!(receipt.reshare.client_filter == Filter::Blacklist(vec![local]));

    let allowed = event_receipt(event(1, 2), from, &local).unwrap();
    assert!(allowed.deliver);

    let other = RemoteAction::Entity { action: EntityAction::Remove, id: SyncEntityId::new(), client_id: sender };
    assert!(event_receipt(other, from, &local).is_none());
}
