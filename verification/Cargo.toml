[package]
name = "mood_api"
version = "0.1.0"
edition = "2021"
publish = false

[dependencies]
axum = "=0.7.9"
bcrypt = "=0.15.1"
bson = { version = "=2.15.0", features = ["chrono-0_4"] }
chrono = "=0.4.45"
futures = "=0.3.34"
jsonwebtoken = { version = "=9.3.1", default-features = false }
once_cell = "=1.21.4"
reqwest = { version = "=0.12.28", default-features = false, features = ["json"] }
serde = { version = "=1.0.229", features = ["derive"] }
serde_json = "=1.0.154"
thiserror = "=1.0.69"
tokio = { version = "=1.54.1", features = ["full"] }
tracing = "=0.1.44"
uuid = { version = "=1.29.0", features = ["v4"] }
validator = "=0.16.1"
wither = "=0.9.0"
