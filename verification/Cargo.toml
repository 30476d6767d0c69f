[package]
name = "rustlens"
version = "0.1.0"
edition = "2021"
publish = false

[dependencies]
base64 = "=0.22.1"
serde_json = "=1.0.154"
hmac = "=0.12.1"
sha2 = "=0.10.9"
regex = "=1.13.1"
ipnetwork = "=0.21.1"
uuid = { version = "=1.29.0", features = ["v4"] }
chrono = "=0.4.45"
serde = { version = "=1.0.229", features = ["derive"] }
serde_yaml = "=0.9.34"
tokio = { version = "=1.54.1", features = ["rt-multi-thread", "macros", "time", "sync"] }
kube = { version = "=5.0.0", features = ["runtime"] }
k8s-openapi = { version = "=0.29.0", features = ["latest"] }
reqwest = { version = "=0.12.28", default-features = false, features = ["json", "rustls-tls"] }
home = "=0.5.12"
walkdir = "=2.5.0"
log = "=0.4.35"
anyhow = "=1.0.104"
toml = "=1.1.8"
futures = "=0.3.34"
