[package]
name = "sambro_server"
version = "0.1.0"
edition = "2021"
publish = false

[dependencies]
argon2 = { version = "=0.5.3", features = ["std"] }
axum = "=0.6.20"
axum-extra = { version = "=0.8.0", features = ["cookie"] }
chrono = "=0.4.45"
moka = { version = "=0.12.16", features = ["sync"] }
refinery = { version = "=0.8.16", features = ["rusqlite"] }
rusqlite = { version = "=0.29.0", features = ["bundled"] }
serde = { version = "=1.0.229", features = ["derive"] }
tokio = { version = "=1.54.1", features = ["full"] }
tokio-rusqlite = "=0.4.0"
tower-http = { version = "=0.4.4", features = ["trace"] }
tracing = "=0.1.44"
tracing-subscriber = { version = "=0.3.23", features = ["env-filter"] }
ulid = "=1.2.1"
