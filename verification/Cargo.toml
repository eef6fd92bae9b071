[package]
name = "filehost"
version = "0.1.0"
edition = "2021"
publish = false

[dependencies]
byteorder = "=1.5.0"
clap = { version = "=3.2.25", features = ["derive", "env"] }
dirs-2 = "=3.0.1"
lazy_static = "=1.5.1"
log = { version = "=0.4.34", features = ["serde"] }
nix = "=0.24.3"
rustls = "=0.20.9"
rustls-pemfile = "=1.0.4"
serde = { version = "=1.0.229", features = ["derive"] }
serde_json = { version = "=1.0.154", features = ["preserve_order"] }
simplelog = "=0.12.2"
systemd = "=0.10.1"
systemd-journal-logger = "=2.2.2"
webpki = "=0.22.4"
webpki-roots = "=0.22.6"
