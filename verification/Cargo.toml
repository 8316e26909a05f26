[package]
name = "carbonex"
version = "0.1.0"
edition = "2021"
publish = false

[dependencies]
tokio = { version = "*", features = ["macros", "rt-multi-thread", "time"] }
reqwest = { version = "*", default-features = false }
metrics = "*"
metrics-exporter-prometheus = { version = "*", default-features = false, features = ["http-listener"] }
tracing = "*"
tracing-subscriber = { version = "*", features = ["env-filter"] }
color-eyre = "*"
