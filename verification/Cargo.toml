[package]
name = "quant_mini"
version = "0.1.0"
edition = "2021"
publish = false

[dependencies]
hdrhistogram = { version = "7", default-features = false }
anyhow = "1"
axum = "0.7"
clap = { version = "4", features = ["derive"] }
futures = "0.3"
once_cell = "1"
serde = { version = "1", features = ["derive"] }
serde_json = "1"
tokio = { version = "1", features = ["full"] }
tokio-tungstenite = { version = "*", features = ["native-tls"] }
url = "2"
