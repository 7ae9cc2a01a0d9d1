//! Elements that the shell places: single windows and stacks of windows.

pub mod resize_indicator;
pub mod stack;
pub mod stack_hover;
pub mod stack_laws;
pub mod surface;
pub mod swap_indicator;
pub mod window;
pub mod window_laws;
