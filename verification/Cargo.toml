[package]
name = "netcheck"
version = "0.0.1"
edition = "2021"
publish = false

[dependencies]
actix-web = "=4.18.1"
actix-web-opentelemetry = { version = "=0.17.0", features = ["metrics-prometheus"] }
chrono = "=0.4.45"
clap = { version = "=4.6.7", features = ["derive"] }
metrics = "=0.24.6"
opentelemetry = "=0.22.0"
opentelemetry-prometheus = "=0.15.0"
opentelemetry_sdk = "=0.22.1"
opentelemetry-semantic-conventions = "=0.14.0"
prometheus = "=0.13.4"
reqwest = "=0.13.5"
tokio = { version = "=1.54.1", features = ["full"] }
tracing = "=0.1.44"
tracing-subscriber = { version = "=0.3.23", features = ["json", "env-filter", "time"] }
url = "=2.5.8"
