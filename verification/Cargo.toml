[package]
name = "evdev_absinfo"
version = "0.1.0"
edition = "2021"
publish = false

[dependencies]
libc = "0.2"
nix = { version = "*", features = ["ioctl"] }
evdev-rs = "*"
clap = { version = "*", features = ["derive"] }
anyhow = "1"
thiserror = "*"
cfg-if = "1"
