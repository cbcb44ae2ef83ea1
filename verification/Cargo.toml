[package]
name = "input_method_client"
version = "0.1.0"
edition = "2021"
publish = false

[dependencies]
gdk = "0.13"
gdk-sys = "0.10"
gio = "0.9"
glib = "0.10"
gtk = "0.9"
gtk-layer-shell = "0.2"
libc = "0.2"
relm = "0.20"
relm-derive = "0.20"
wayland-client = "0.28"
wayland-protocols = { version = "0.28", features = ["client", "unstable_protocols"] }
