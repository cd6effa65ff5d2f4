[package]
name = "rust_web_app"
version = "0.1.0"
edition = "2021"
publish = false

[dependencies]
hmac = "=0.12.1"
sha2 = "=0.10.9"
base64 = "=0.22.1"
argon2 = "=0.5.3"
uuid = { version = "=1.29.0", features = ["v4"] }
regex-syntax = "=0.8.11"
rand = "=0.8.8"
serde = { version = "=1.0.229", features = ["derive"] }
serde_json = "=1.0.154"
clap = { version = "=4.6.7", features = ["derive", "env"] }
base64-url = "=4.0.1"
tokio = { version = "=1.54.1", features = ["rt-multi-thread", "macros", "net"] }
axum = "=0.8.9"
tower-cookies = "=0.11.0"
tracing = "=0.1.44"
tracing-subscriber = { version = "=0.3.23", features = ["env-filter"] }
sqlx = { version = "=0.8.6", default-features = false, features = ["runtime-tokio", "postgres", "json"] }
time = { version = "0.3", features = ["formatting", "parsing"] }
