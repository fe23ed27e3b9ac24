pub mod event_type_id;
pub mod receive;
pub mod receive_event_systems;
pub mod received_event;
pub mod send_event;
