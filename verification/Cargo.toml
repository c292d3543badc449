[package]
name = "winit_adwaita"
version = "0.1.0"
edition = "2021"
publish = false

[dependencies]
dpi = "0.1"
raw-window-handle = "0.6"
libadwaita = "*"
gtk4 = { version = "*", features = ["v4_16"] }
gdk4-wayland = { version = "*", features = ["wayland_crate"] }
gdk4-x11 = { version = "*", features = ["xlib"] }
