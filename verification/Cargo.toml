[package]
name = "solar_monitor"
version = "0.1.0"
edition = "2021"
publish = false

[dependencies]
ws2818-rgb-led-spi-driver = "*"
reqwest = { version = "*", default-features = false, features = ["rustls-tls", "json"] }
serde = { version = "*", features = ["derive"] }
tokio = { version = "*", features = ["full"] }
axum = "*"
dotenv = "*"
