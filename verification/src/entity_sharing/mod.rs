pub mod entity_origin;
pub mod entity_sync;
pub mod receive_entity_systems;
pub mod send_entity_systems;
pub mod sync_entity;

pub use crate::sync_entity_id;
