[package]
name = "picturas"
version = "0.1.0"
edition = "2021"
publish = false

[dependencies]
axum = { version = "*", features = ["ws", "multipart"] }
chrono = "*"
futures-util = "*"
lapin = "*"
photon-rs = "*"
serde = { version = "*", features = ["derive"] }
serde_json = "*"
sqlx = { version = "*", default-features = false, features = ["postgres", "runtime-tokio", "chrono", "uuid"] }
thiserror = "*"
tokio = { version = "*", features = ["full"] }
tracing = "*"
uuid = { version = "*", features = ["v4"] }
