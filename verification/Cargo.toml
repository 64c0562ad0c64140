[package]
name = "qvirt"
version = "0.1.0"
edition = "2021"
publish = false

[dependencies]
android_logger = "0.13"
anyhow = "1"
glob = "0.3"
lazy_static = "1"
libc = "0.2"
log = "0.4"
nix = "0.26"
serde = { version = "1", features = ["derive"] }
serde_json = "1"
tempfile = "3"
