//! The shell: windows, stacks, seats, menus and the rules that move them.

pub mod element;
pub mod fullscreen_reveal;
pub mod grabs;
pub mod layout;
pub mod night_light;
pub mod night_light_laws;
pub mod night_light_schedule;
pub mod reveal_laws;
pub mod seat_laws;
pub mod seats;
pub mod zoom;
pub mod zoom_laws;
