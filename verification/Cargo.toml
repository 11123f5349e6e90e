[package]
name = "pumpfun"
version = "0.1.0"
edition = "2021"

[dependencies]
base64 = "=0.22.1"
borsh = { version = "=1.8.1", features = ["derive"] }
futures = "=0.3.34"
futures-util = "0.3"
serde = { version = "=1.0.229", features = ["derive"] }
serde_json = "=1.0.154"
solana-sdk = "=2.3.1"
spl-associated-token-account = "=6.0.0"
spl-token = "=7.0.0"
tokio = { version = "=1.54.1", features = ["full"] }
tokio-tungstenite = "0.24"
