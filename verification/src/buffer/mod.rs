pub mod buffer_object;
pub mod buffer_systems;
pub mod buffered;
pub mod component_buffer;
