[package]
name = "forms_backend"
version = "0.1.0"
edition = "2021"
publish = false

[dependencies]
anyhow = "=1.0.104"
axum = { version = "=0.6.20", features = ["headers"] }
bcrypt = "=0.15.1"
csv = "=1.4.0"
dotenv = "=0.15.0"
jsonwebtoken = "=8.3.0"
reqwest = { version = "=0.11.27", default-features = false, features = ["json", "rustls-tls"] }
serde = { version = "=1.0.229", features = ["derive"] }
serde_json = { version = "=1.0.154", features = ["preserve_order"] }
sqlx = { version = "=0.7.4", features = ["runtime-tokio-rustls", "postgres", "time", "uuid"] }
thiserror = "=1.0.69"
time = { version = "=0.3.55", features = ["serde"] }
tokio = { version = "=1.54.1", features = ["full"] }
tower-http = { version = "=0.4.4", features = ["cors"] }
tracing = "=0.1.44"
tracing-subscriber = { version = "=0.3.23", features = ["env-filter"] }
uuid = { version = "=1.29.0", features = ["v4", "serde"] }
validator = { version = "=0.16.1", features = ["derive"] }
