//! What a key press means.

pub mod binding_resolver;
pub mod conflict_laws;
pub mod press_laws;
pub mod source_laws;
