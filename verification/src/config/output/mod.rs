//! Outputs: their configurations, the profiles that store them, and how they are applied.

pub mod comp;
pub mod display_laws;
pub mod displays_toml;
pub mod head_laws;
pub mod heads;
