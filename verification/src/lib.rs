//! The decision logic of a Wayland compositor as a verified library.

pub mod backend;
pub mod config;
pub mod dbus;
pub mod event_bus;
pub mod event_laws;
pub mod geometry;
pub mod hooks;
pub mod input;
pub mod json;
pub mod logger;
pub mod model_laws;
pub mod number;
pub mod order;
pub mod part_laws;
pub mod path;
pub mod pattern;
pub mod seqs;
pub mod shell;
pub mod text;
pub mod theme;
pub mod wayland;
