[package]
name = "libcitadel"
version = "0.1.0"
edition = "2021"
publish = false

[dependencies]
byteorder = "=1.5.0"
rustc-serialize = "=0.3.25"
ring = "=0.17.14"
hex = "=0.4.3"
toml = "=0.5.11"
serde = { version = "=1.0.229", features = ["derive"] }
serde_derive = "=1.0.229"
libc = "=0.2.191"
walkdir = "=2.5.0"
lazy_static = "=1.5.1"
sodiumoxide = "=0.2.7"
failure = "=0.1.8"
inotify = "0.9"
