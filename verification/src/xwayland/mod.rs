//! The auxiliary control connection to the X server.

pub mod control;
pub mod ewmh;
pub mod keyboard;
pub mod pointer;
