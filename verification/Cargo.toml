[package]
name = "tari_core"
version = "0.1.0"
edition = "2021"
publish = false

[dependencies]
tari_crypto = "=0.16.12"
tari_utilities = "=0.4.10"
digest = "=0.9.0"
serde = { version = "=1.0.229", features = ["derive"] }
rmp-serde = "=1.3.1"
chrono = "=0.4.45"

[dev-dependencies]
rand = "=0.7.3"
