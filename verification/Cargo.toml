[package]
name = "rest_core"
version = "0.1.0"
edition = "2021"
publish = false

[dependencies]
anyhow = "1"
rustls = "0.21"
rustls-pemfile = "1"
serde_json = "1"
serde_qs = "0.12"
tokio = { version = "1", features = ["macros", "net", "rt", "io-util"] }
tokio-rustls = "0.24"
tokio-util = "0.7"
tower = { version = "0.4", features = ["make", "util"] }
tower-http = { version = "0.4", features = ["compression-gzip", "compression-zstd", "cors"] }
tracing = "0.1"
warp = { version = "0.3", default-features = false }
