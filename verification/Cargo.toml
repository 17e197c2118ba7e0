[package]
name = "timbas"
version = "0.1.0"
edition = "2021"
publish = false

[dependencies]
axum = "*"
axum-extra = { version = "*", features = ["cookie"] }
chrono = "*"
futures = "*"
serde = { version = "*", features = ["derive"] }
serde_json = "*"
sqlx = { version = "*", features = ["runtime-tokio", "sqlite"] }
time = "*"
tokio = { version = "*", features = ["sync", "macros", "rt-multi-thread", "net"] }
tokio-stream = { version = "*", features = ["sync"] }
tower-http = { version = "*", features = ["cors", "fs"] }
uuid = { version = "*", features = ["v4"] }
