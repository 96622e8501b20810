[package]
name = "opencode_sandbox"
version = "0.1.0"
edition = "2021"
publish = false

[dependencies]
sha2 = "0.10"
httparse = "1"
subtle = "2"
axum = "0.7"
reqwest = { version = "0.12", default-features = false, features = ["json", "rustls-tls"] }
serde = { version = "1", features = ["derive"] }
serde_json = "1"
serde_yaml = "0.9"
serde_urlencoded = "0.7"
uuid = { version = "1", features = ["v4"] }
anyhow = "1"
tokio = { version = "1", features = ["full"] }
kube = { version = "0.93", features = ["runtime"] }
k8s-openapi = { version = "0.22", features = ["v1_30"] }
rusqlite = { version = "0.31", features = ["bundled"] }
chrono = "0.4"
fs2 = "0.4"
nix = { version = "0.29", features = ["signal", "process"] }
prometheus = { version = "0.13", default-features = false }
clap = { version = "4", features = ["derive", "env"] }
tracing = "0.1"
tracing-subscriber = { version = "0.3", features = ["env-filter", "json"] }
async-trait = "0.1"
futures = "0.3"
tower-http = { version = "0.5", features = ["trace"] }
hex = "0.4"
