[package]
name = "w3p_ups"
version = "0.1.0"
edition = "2021"
publish = false

[dependencies]
anyhow = "1"
crossterm = "0.28"
log = "0.4"
serde = { version = "1", features = ["derive"] }
serde_json = "1"
serialport = { version = "4", default-features = false }
signal-hook = "0.3"
simplelog = "0.12"
toml = "0.8"
