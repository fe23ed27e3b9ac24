pub mod component_origin;
pub mod component_type_id;
pub mod receive;
pub mod share_component;
