[package]
name = "alpaca_options"
version = "0.1.0"
edition = "2021"
publish = false

[dependencies]
anyhow = "=1.0.104"
chrono = "=0.4.45"
chrono-tz = "=0.10.4"
log = "=0.4.35"
nautilus-common = "=0.57.0"
nautilus-core = "=0.57.0"
nautilus-model = "=0.57.0"
nautilus-trading = "=0.57.0"
serde = { version = "=1.0.229", features = ["derive"] }
serde_json = "=1.0.154"
time = "=0.3.55"
