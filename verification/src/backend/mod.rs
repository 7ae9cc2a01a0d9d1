//! What the compositor draws itself.

pub mod render;
