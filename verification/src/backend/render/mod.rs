//! Rendering.

pub mod header_laws;
pub mod window_header;
