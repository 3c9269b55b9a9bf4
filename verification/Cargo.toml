[package]
name = "srvcs-movingaverage"
version = "0.1.0"
edition = "2021"
publish = false

[dependencies]
axum = "0.8"
serde = { version = "1", features = ["derive"] }
serde_json = "1"
utoipa = "5"
reqwest = { version = "0.12", default-features = false, features = ["json"] }
