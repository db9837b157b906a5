[package]
name = "response_pipeline"
version = "0.1.0"
edition = "2021"
publish = false

[dependencies]
axum = "*"
serde = { version = "*", features = ["derive"] }
serde_json = "*"
tokio = { version = "*", features = ["full"] }
tower-cookies = "*"
tower-http = { version = "*", features = ["fs"] }
uuid = { version = "*", features = ["v4"] }
