[package]
name = "vibing-storage"
version = "0.1.0"
edition = "2021"
publish = false

[dependencies]
sqlx = { version = "=0.9.0", default-features = false, features = ["postgres", "runtime-tokio", "migrate"] }
tokio = { version = "=1.54.1", features = ["full"] }
tokio-util = { version = "=0.7.20", features = ["io"] }
axum = { version = "=0.8.9", features = ["macros"] }
tower-http = { version = "=0.7.1", features = ["cors"] }
serde = { version = "=1.0.229", features = ["derive"] }
serde_json = "=1.0.154"
dotenvy = "=0.15.7"
audiotags = "=0.5.0"
