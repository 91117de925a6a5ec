[package]
name = "superclip"
version = "0.1.0"
edition = "2021"
publish = false

[dependencies]
byteorder = "=1.5.0"
clap = "=2.34.0"
log = "=0.4.34"
nix = "=0.26.4"
simple_logger = "=1.16.0"
tempfile = "=3.27.0"
wayland-client = "=0.25.0"
