[package]
name = "scrcap"
version = "0.1.0"
edition = "2021"
publish = false

[dependencies]
anyhow = "1"
clap = { version = "4", features = ["derive"] }
dirs = "5"
image = { version = "0.24", default-features = false, features = ["png", "jpeg", "pnm"] }
memmap2 = "0.9"
nix = "0.26"
swayipc = "3"
wayland-client = "0.29"
wayland-protocols = { version = "0.29", features = ["client", "unstable_protocols"] }
