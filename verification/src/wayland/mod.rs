//! Decisions behind the Wayland protocols of the compositor.

pub mod dmabuf;
pub mod input_method;
pub mod permissions;
pub mod virtual_keyboard;
pub mod wlr_gamma_control;
