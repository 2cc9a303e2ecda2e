[package]
name = "neuro_desktop"
version = "0.1.0"
edition = "2021"
publish = false

[dependencies]
anyhow = "1"
serde = { version = "1", features = ["derive"] }
serde_json = "1"
serde_yaml = "0.9"
tokio = { version = "1", features = ["rt-multi-thread", "macros", "time", "signal", "sync"] }
pyo3 = "0.22"
futures-util = "0.3"
tokio-tungstenite = "*"
neuro-sama = "*"
schemars = "0.8"
config = { version = "0.14", default-features = false, features = ["yaml"] }
