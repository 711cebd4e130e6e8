[package]
name = "socky_be"
version = "0.1.0"
edition = "2021"
publish = false

[dependencies]
chrono = "=0.4.45"
uuid = { version = "=1.29.0", features = ["v4", "serde"] }
rand = "=0.9.5"
base64 = "=0.22.1"
jsonwebtoken = "=9.3.1"
serde_json = "=1.0.154"
serde = { version = "=1.0.229", features = ["derive"] }
axum = "=0.8.9"
tokio = { version = "=1.54.1", features = ["full"] }
sqlx = { version = "=0.8.6", default-features = false, features = ["runtime-tokio", "postgres", "chrono", "uuid"] }
tower = "=0.5.3"
tower-http = { version = "=0.6.11", features = ["trace", "request-id", "catch-panic", "fs"] }
tower-cookies = "=0.11.0"
tracing = "=0.1.44"
thiserror = "=2.0.21"
utoipa = "=5.5.0"
utoipa-scalar = { version = "=0.3.0", features = ["axum"] }
secrecy = "=0.10.3"
strum_macros = "=0.26.4"
serde_with = "=3.24.0"
lazy-regex = "=3.6.2"
hmac = "=0.12.1"
sha2 = "=0.10.9"
argon2 = "0.5"
