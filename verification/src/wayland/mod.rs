//! The Wayland protocols of the desktop.

pub mod client;
pub mod handlers;
pub mod protocols;
