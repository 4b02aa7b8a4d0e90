[package]
name = "analytics_backend"
version = "0.1.0"
edition = "2021"
publish = false

[dependencies]
axum = "=0.7.9"
clickhouse = { version = "=0.13.3", features = ["time"] }
time = { version = "=0.3.55", features = ["parsing", "formatting"] }
serde = { version = "=1.0.229", features = ["derive"] }
serde_json = "=1.0.154"
tokio = { version = "=1.54.1", features = ["full"] }
reqwest = { version = "=0.12.28", default-features = false, features = ["json", "rustls-tls"] }
tower-http = { version = "=0.5.2", features = ["cors"] }
tracing = "=0.1.44"
tracing-subscriber = { version = "=0.3.23", features = ["env-filter"] }
dotenvy = "=0.15.7"
uuid = { version = "1", features = ["v4"] }
