//! The trees that the parsers build.

pub mod content_node;
pub mod element_node;
pub mod store_node;
pub mod template_node;
pub mod view_node;
