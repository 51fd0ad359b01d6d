[package]
name = "fg-uds"
version = "0.1.0"
edition = "2021"
publish = false

[dependencies]
bytes = "=0.4.12"
futures = "=0.1.31"
futures-glib = "=0.3.2"
gio-sys = "=0.5.0"
glib-sys = "=0.5.0"
libc = "=0.2.191"
nix = "=0.9.0"
tokio-io = "=0.1.13"
