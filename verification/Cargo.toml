[package]
name = "trade_advisor"
version = "0.1.0"
edition = "2021"
publish = false

[dependencies]
alpha_vantage = "*"
axum = "*"
ibapi = "*"
ollama-rs = "*"
reqwest = { version = "*", default-features = false, features = ["json", "rustls-tls"] }
serde = { version = "*", features = ["derive"] }
tokio = { version = "*", features = ["full"] }
