//! The configuration of the compositor.

pub mod accelerator_laws;
pub mod action_laws;
pub mod appearance;
pub mod appearance_laws;
pub mod comp;
pub mod comp_laws;
pub mod dynamic;
pub mod input;
pub mod input_laws;
pub mod key_bindings;
pub mod keybinding;
pub mod layout;
pub mod layout_laws;
pub mod output;
pub mod value;
pub mod xkb;
pub mod xkb_laws;
