use bevy_hookup_core::buffer::buffer_object::BufferObject;
use bevy_hookup_core::buffer::component_buffer::{ComponentBuffer, Popped};

fn buffer_at(index: u64, actual: i32) -> ComponentBuffer<i32, 3> {
    ComponentBuffer { buffer: [None, None, None], current_network_index: index, actual }
}

#[test]
fn update_for_next_index_is_shown_after_one_pop() {
    let mut buffer = buffer_at(10, 0);
    buffer.set_component(11, 7);
    assert_eq!(buffer.buffer, [Some(7), None, None]);
    assert!(matches!(buffer.try_pop(), Popped::Next));
    assert_eq!(buffer.actual, 7);
    assert_eq!(buffer.current_network_index, 11);
    assert_eq!(buffer.buffer, [None, None, None]);
}

#[test]
fn stale_update_changes_nothing() {
    let mut buffer = buffer_at(10, 5);
    buffer.set_component(10, 99);
    buffer.set_component(3, 98);
    assert_eq!(buffer.buffer, [None, None, None]);
    assert_eq!(buffer.actual, 5);
    assert_eq!(buffer.current_network_index, 10);
}

#[test]
fn update_inside_window_waits_in_its_slot() {
    let mut buffer = buffer_at(10, 5);
    buffer.set_component(13, 8);
    assert_eq!(buffer.buffer, [None, None, Some(8)]);
    assert_eq!(buffer.actual, 5);
}

#[test]
fn update_beyond_window_resynchronises() {
    let mut buffer = buffer_at(10, 5);
    buffer.set_component(12, 1);
    buffer.set_component(14, 9);
    assert_eq!(buffer.buffer, [None, None, None]);
    assert_eq!(buffer.actual, 9);
    assert_eq!(buffer.current_network_index, 14);
}

#[test]
fn pop_with_gap_returns_interpolation_target() {
    let mut buffer = buffer_at(10, 5);
    buffer.set_component(13, 8);
    match buffer.try_pop() {
        Popped::Towards { target, distance } => {
            assert_eq!(target, 8);
            assert_eq!(distance, 3);
        }
        _ => panic!("expected an interpolation target"),
    }
    assert_eq!(buffer.actual, 5);
    assert_eq!(buffer.current_network_index, 11);
    assert_eq!(buffer.buffer, [None, Some(8), None]);
}

#[test]
fn pop_on_empty_buffer_does_nothing() {
    let mut buffer = buffer_at(10, 5);
    assert!(matches!(buffer.try_pop(), Popped::Nothing));
    assert_eq!(buffer.current_network_index, 10);
    assert_eq!(buffer.actual, 5);
}

#[test]
fn pending_updates_keep_their_index_across_pops() {
    let mut buffer = buffer_at(0, 0);
    buffer.set_component(1, 10);
    buffer.set_component(2, 20);
    buffer.set_component(3, 30);
    assert!(matches!(buffer.try_pop(), Popped::Next));
    assert_eq!((buffer.actual, buffer.current_network_index), (10, 1));
    buffer.set_component(4, 40);
    assert!(matches!(buffer.try_pop(), Popped::Next));
    assert_eq!((buffer.actual, buffer.current_network_index), (20, 2));
    assert!(matches!(buffer.try_pop(), Popped::Next));
    assert_eq!((buffer.actual, buffer.current_network_index), (30, 3));
    assert!(matches!(buffer.try_pop(), Popped::Next));
    assert_eq!((buffer.actual, buffer.current_network_index), (40, 4));
}

#[test]
fn received_buffer_starts_with_first_copy_waiting() {
    let buffer = ComponentBuffer::<i32, 3>::from_received(4, 17);
    assert_eq!(buffer.actual, 4);
    assert_eq!(buffer.current_network_index, 17);
    assert_eq!(buffer.buffer, [Some(4), None, None]);
}

#[test]
fn buffer_object_starts_at_zero_and_advances() {
    let mut object = BufferObject::new(3u8);
    assert_eq!(object.index, 0);
    object.advance(5);
    assert_eq!((object.component, object.index), (5, 1));
}
