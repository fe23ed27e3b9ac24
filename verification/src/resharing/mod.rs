pub mod reshare_entity_plugin;
pub mod reshare_events_plugin;
