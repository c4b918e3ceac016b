[package]
name = "barrier"
version = "0.1.0"
edition = "2021"
publish = false

[dependencies]
nom = "=7.1.3"
evdev-rs = "=0.3.1"
nix = "=0.13.1"
snafu = "=0.6.10"
serde = { version = "=1.0.229", features = ["derive"] }
config = "=0.10.1"
xdg = "=2.5.2"
