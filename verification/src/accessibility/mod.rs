//! Who may use the accessibility services.

pub mod dbus;
