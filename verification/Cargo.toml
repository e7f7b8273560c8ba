[package]
name = "checkpoint"
version = "0.1.0"
edition = "2021"
publish = false

[dependencies]
anyhow = "=1.0.104"
axum = "=0.6.20"
axum-server = { version = "=0.5.1", features = ["tls-rustls"] }
chrono = "=0.4.45"
clap = { version = "=4.6.7", features = ["derive"] }
envy = "=0.4.2"
futures-util = "=0.3.34"
hostname = "=0.3.1"
http = "=0.2.12"
interpolator = "=0.5.0"
itertools = "=0.11.0"
json-patch = "=1.4.0"
k8s-openapi = { version = "=0.18.0", features = ["v1_26", "schemars"] }
kube = { version = "=0.84.0", default-features = false, features = ["client", "rustls-tls", "runtime", "derive", "admission"] }
mlua = { version = "=0.8.10", features = ["luau", "async", "serialize"] }
notify = "=6.1.1"
reqwest = { version = "=0.11.27", default-features = false, features = ["json", "rustls-tls"] }
schemars = { version = "=0.8.22", features = ["url"] }
secrecy = "=0.8.0"
serde = { version = "=1.0.229", features = ["derive"] }
serde_json = "=1.0.154"
serde_yaml = "=0.9.34"
slack-blocks = "=0.25.0"
stopper = "=0.2.8"
thiserror = "=1.0.69"
tokio = { version = "=1.54.1", features = ["full"] }
tower-http = { version = "=0.4.4", features = ["trace"] }
tracing = "=0.1.44"
tracing-subscriber = { version = "=0.3.23", features = ["env-filter"] }
url = { version = "=2.5.8", features = ["serde"] }
