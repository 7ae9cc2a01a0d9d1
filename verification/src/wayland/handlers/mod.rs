//! What requests of clients do.

pub mod decoration;
pub mod overlay_laws;
pub mod shell_overlay;
pub mod titlebar;
pub mod titlebar_laws;
