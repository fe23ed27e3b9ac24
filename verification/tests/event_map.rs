use bevy_hookup_core::connection::remote_action::{EventId, EventTimestamp};
use bevy_hookup_core::event_map::EventMap;

#[test]
fn default_keeps_events_two_minutes() {
    let map = EventMap::default();
    assert_eq!(map.retention_time_secs, 120);
    assert!(map.map.is_empty());
}

#[test]
fn cutoff_subtracts_retention() {
    let map = EventMap::default();
    assert_eq!(map.cutoff_at(1000), EventTimestamp(880));
    assert_eq!(map.cutoff_at(50), EventTimestamp(0));
}

#[test]
fn new_recent_event_is_valid_and_then_refused() {
    let mut map = EventMap::default();
    let id = EventId(42);
    assert!(map.valid_at(&id, &EventTimestamp(900), 1000));
    map.insert(id, EventTimestamp(900));
    assert!(!map.valid_at(&id, &EventTimestamp(900), 1000));
    assert!(!map.valid_at(&id, &EventTimestamp(990), 1000));
}

#[test]
fn old_event_is_refused() {
    let map = EventMap::default();
    assert!(!map.valid_at(&EventId(1), &EventTimestamp(879), 1000));
    assert!(map.valid_at(&EventId(1), &EventTimestamp(880), 1000));
}

#[test]
fn clearing_drops_only_old_events() {
    let mut map = EventMap::default();
    map.insert(EventId(1), EventTimestamp(100));
    map.insert(EventId(2), EventTimestamp(879));
    map.insert(EventId(3), EventTimestamp(880));
    map.insert(EventId(4), EventTimestamp(1500));
    map.clear_old_at(1000);
    let mut left: Vec<u64> = map.map.keys().copied().collect();
    left.sort();
    assert_eq!(left, vec![3, 4]);
    assert!(!map.valid_at(&EventId(3), &EventTimestamp(880), 1000));
}

#[test]
fn current_time_events_are_valid() {
    let map = EventMap::default();
    assert!(map.valid(&EventId::default(), &EventTimestamp::default()));
}
