[package]
name = "web_service"
version = "0.1.0"
edition = "2021"
publish = false

[dependencies]
tokio = { version = "=1.53.2", features = ["rt-multi-thread", "net", "sync", "macros", "io-util", "time"] }
axum = "=0.8.9"
tower-http = { version = "=0.7.1", features = ["compression-gzip", "compression-deflate", "compression-br", "compression-zstd", "cors", "fs"] }
serde = { version = "1", features = ["derive"] }
anyhow = "1"
log = "0.4"

[dev-dependencies]
tower = "*"
