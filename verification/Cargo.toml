[package]
name = "prometheus_clightning_exporter"
version = "0.1.0"
edition = "2021"
publish = false

[dependencies]
anyhow = "=1.0.104"
clap = { version = "=3.2.25", features = ["derive"] }
clightningrpc = "=0.2.0"
futures = "=0.3.34"
hyper = "=0.13.10"
log = "=0.4.34"
prometrics = "=0.1.13"
serde = { version = "=1.0.229", features = ["derive"] }
serde_json = "=1.0.154"
stderrlog = "=0.5.4"
tokio = { version = "=0.2.25", features = ["full"] }
tokio-util = { version = "=0.3.1", features = ["codec", "compat"] }
