[package]
name = "metron"
version = "0.1.0"
edition = "2021"
publish = false

[dependencies]
url = "=2.5.8"
humantime = "=2.4.0"
axum = "=0.6.20"
hdrhistogram = "=7.6.0"
prost-types = "0.12"
anyhow = "=1.0.104"
thiserror = "=1.0.69"
serde = { version = "=1.0.229", features = ["derive"] }
serde_yaml = "=0.9.34"
humantime-serde = "=1.1.1"
clap = { version = "=4.6.7", features = ["derive"] }
tokio = { version = "=1.54.1", features = ["full"] }
reqwest = { version = "=0.11.27", default-features = false }
quanta = "=0.12.6"
tracing = "=0.1.44"
tracing-core = "=0.1.36"
tracing-subscriber = { version = "=0.3.23", features = ["env-filter"] }
num_cpus = "=1.17.0"
