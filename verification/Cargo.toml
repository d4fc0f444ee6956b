[package]
name = "libsql-server"
version = "0.1.0"
edition = "2021"
publish = false

[dependencies]
anyhow = "1"
async-trait = "0.1"
axum = "0.6"
axum-extra = "0.7"
base64 = "0.21"
bytesize = { version = "1", features = ["serde"] }
chrono = { version = "0.4", features = ["serde"] }
dialoguer = { version = "0.11", features = ["history"] }
ed25519-dalek = { version = "2", features = ["rand_core"] }
hyper = { version = "0.14", features = ["full"] }
metrics-exporter-prometheus = { version = "0.12", default-features = false }
metrics-util = "0.15"
moka = { version = "0.12", features = ["sync"] }
nix = { version = "0.27", features = ["process", "feature"] }
parking_lot = "0.12"
rand = "0.8"
rusqlite = { version = "0.29", features = ["bundled"] }
serde = { version = "1", features = ["derive"] }
serde_json = { version = "1", features = ["preserve_order"] }
tokio = { version = "1", features = ["rt-multi-thread", "net", "io-std", "io-util", "time", "macros", "sync", "fs"] }
tokio-stream = "0.1"
tonic = "0.11"
tonic-web = "0.11"
tower = { version = "0.4", features = ["make"] }
tower-http = { version = "0.4", features = ["compression-gzip", "cors", "trace"] }
tracing = "0.1"
url = { version = "2", features = ["serde"] }
