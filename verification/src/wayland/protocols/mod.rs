//! The state behind the protocols.

pub mod attach_laws;
pub mod shell_overlay;
pub mod titlebar;
pub mod window_attach;
