[package]
name = "boveda"
version = "0.1.0"
edition = "2021"
publish = false

[dependencies]
cocoon = "0.4"
serde = { version = "1", features = ["derive"] }
serde_json = "1"
axum = "0.7"
tokio = { version = "1", features = ["full"] }
rpassword = "7"
