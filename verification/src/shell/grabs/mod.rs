//! What the pointer is grabbed for.

pub mod menu;
pub mod menu_laws;
