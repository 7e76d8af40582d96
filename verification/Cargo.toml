[package]
name = "balance_proof"
version = "0.1.0"
edition = "2021"
publish = false

[dependencies]
bitcoin = { version = "*", features = ["secp-recovery", "base64"] }
serde = { version = "*", features = ["derive"] }
axum = "*"
tokio = { version = "*", features = ["rt-multi-thread", "macros", "net"] }
tower-http = { version = "*", features = ["cors"] }
