[package]
name = "metrics_tracing_example"
version = "0.1.0"
edition = "2021"
publish = false

[dependencies]
tracing = "*"
metrics = "*"
metrics-exporter-prometheus = "*"
sysinfo = "*"
tokio = { version = "*", features = ["rt", "rt-multi-thread", "sync", "time", "macros"] }
