//! The backend of the desktop portal.

pub mod auth;
pub mod session;
