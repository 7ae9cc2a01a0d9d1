//! What applications register over the bus: themselves and their key bindings.

pub mod app_interface;
pub mod bus_laws;
pub mod error;
pub mod input_manager;
