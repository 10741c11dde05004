[package]
name = "ocs_meet"
version = "0.1.0"
edition = "2021"
publish = false

[dependencies]
anyhow = "*"
chrono = "*"
livekit-api = { version = "*", default-features = false, features = ["access-token"] }
poem = "*"
poem-openapi = { version = "*", features = ["swagger-ui", "uuid", "chrono"] }
serde_json = "*"
sqlx = { version = "*", features = ["postgres", "runtime-tokio", "chrono", "uuid"] }
tokio = { version = "*", features = ["rt-multi-thread", "macros"] }
url = "*"
uuid = { version = "*", features = ["v4"] }
