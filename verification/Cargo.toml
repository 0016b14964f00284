[package]
name = "halley"
version = "0.1.0"
edition = "2021"
publish = false

[dependencies]
calloop = "0.14"
eventline = "*"
libc = "0.2"
wayland-protocols-wlr = { version = "0.3", features = ["server"] }
wayland-server = "0.31"
x11rb = { version = "0.13", features = ["xkb", "xtest"] }
zbus = "5"
