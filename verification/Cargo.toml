[package]
name = "nixos_updater"
version = "0.1.0"
edition = "2021"
publish = false

[dependencies]
anyhow = "1"
clap = { version = "4", features = ["derive"] }
dbus = "0.9"
log = "0.4"
mktemp = "0.5"
serde = { version = "1", features = ["derive"] }
serde_json = "1"
serde_with = "3"
stderrlog = "0.6"
thiserror = "1"
tokio = { version = "1", features = ["rt", "rt-multi-thread"] }
