pub mod buffer;
pub mod client_id;
pub mod clock;
pub mod component_sharing;
pub mod connection;
pub mod entity_sharing;
pub mod event_map;
pub mod event_sharing;
pub mod external_component;
pub mod external_entity;
pub mod filter;
pub mod from_session;
pub mod hook_session;
pub mod hookup_entity_systems;
pub mod origin;
pub mod owner_component;
pub mod presence;
pub mod random;
pub mod received_event;
pub mod resharing;
pub mod send_component_set;
pub mod sendable_component;
pub mod session;
pub mod session_action;
pub mod session_filter;
pub mod session_handler;
pub mod share_component;
pub mod shared;
pub mod shared_component;
pub mod sync_component_id;
pub mod sync_entity;
pub mod sync_entity_id;
pub mod sync_id;
