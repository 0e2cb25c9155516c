[package]
name = "upload_store"
version = "0.1.0"
edition = "2021"
publish = false

[dependencies]
rand = "*"
axum = { version = "*", features = ["multipart"] }
knuffel = "*"
miette = "*"
tokio = { version = "*", features = ["full"] }
tower-http = { version = "*", features = ["cors"] }
tracing = "*"
tracing-subscriber = { version = "*", features = ["env-filter"] }
serde = { version = "*", features = ["derive"] }
serde_json = "*"
reqwest = { version = "*", default-features = false, features = ["json"] }
regex = "*"
chrono = "*"
