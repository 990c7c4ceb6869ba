[package]
name = "car_api"
version = "0.1.0"
edition = "2021"
publish = false

[dependencies]
openssl = "*"
axum = "*"
tokio = { version = "*", features = ["rt-multi-thread", "macros"] }
serde = { version = "*", features = ["derive"] }
dotenv = "*"
