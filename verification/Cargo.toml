[package]
name = "bevy_hookup_core"
version = "0.1.0"
edition = "2021"
publish = false

[dependencies]
anyhow = "=1.0.104"
bevy = { version = "=0.18.1", default-features = false }
crossbeam = "=0.8.5"
erased-serde = "=0.4.11"
rand = "=0.9.5"
serde = { version = "=1.0.229", features = ["derive"] }
