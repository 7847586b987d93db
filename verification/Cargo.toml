[package]
name = "color_rs"
version = "0.1.0"
edition = "2021"
publish = false

[dependencies]
axum = "*"
chrono = "*"
tokio = { version = "*", features = ["full"] }
