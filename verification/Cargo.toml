[package]
name = "proxmox_auto_installer"
version = "0.1.0"
edition = "2021"
publish = false

[dependencies]
anyhow = "1"
clap = { version = "4", features = ["derive"] }
hex = "0.4"
log = "0.4"
native-tls = "0.2"
rustls = { version = "0.21", features = ["dangerous_configuration"] }
rustls-native-certs = "0.6"
serde = { version = "1", features = ["derive"] }
serde_json = "1"
serde_plain = "1"
sha2 = "0.10"
toml = "0.8"
ureq = { version = "~2.8", features = ["native-tls"] }
