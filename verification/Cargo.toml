[package]
name = "arclink"
version = "0.1.0"
edition = "2021"
publish = false

[dependencies]
bincode = "=1.3.3"
chrono = { version = "=0.4.45", features = ["serde"] }
image = { version = "=0.24.9", default-features = false, features = ["jpeg"] }
jpeg-decoder = { version = "=0.3.2", default-features = false, features = ["platform_independent"] }
serde = { version = "=1.0.229", features = ["derive"] }
tokio = { version = "=1.54.1", features = ["full"] }
tracing-subscriber = "=0.3.23"
