//! Decision logic of a Wayland compositor and its desktop portal.

pub mod accessibility;
pub mod bus;
pub mod paths;
pub mod portal;
pub mod session;
pub mod text;
pub mod wayland;
pub mod xwayland;
