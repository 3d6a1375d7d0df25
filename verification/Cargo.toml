[package]
name = "deadline_scheduler"
version = "0.1.0"
edition = "2021"
publish = false

[dependencies]
uuid = { version = "*", features = ["v7"] }
chrono = "*"
tokio = { version = "*", features = ["sync", "time", "rt"] }
futures = "*"
axum-core = "*"
axum-extra = { version = "*", features = ["typed-header"] }
http = "*"
jsonwebtoken = "*"
serde = { version = "*", features = ["derive"] }
parking_lot = "*"
tracing = "*"
