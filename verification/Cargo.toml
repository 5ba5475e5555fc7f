[package]
name = "matrix-mcp"
version = "0.1.0"
edition = "2021"
publish = false

[dependencies]
anyhow = "=1.0.104"
clap = { version = "=4.6.7", default-features = false, features = ["std", "derive", "env", "help", "usage", "error-context"] }
clap-verbosity-flag = { version = "=3.0.4", features = ["tracing"] }
indoc = "=2.0.8"
matrix-sdk = { version = "=0.18.0", default-features = false, features = ["markdown"] }
rand = "=0.9.5"
rmcp = "=3.8.0"
secrecy = "=0.10.3"
serde = { version = "=1.0.229", features = ["derive"] }
serde_json = "=1.0.154"
tokio = { version = "=1.54.1", features = ["full"] }
tokio-util = "=0.7.20"
tracing = "=0.1.44"
tracing-subscriber = { version = "=0.3.23", default-features = false, features = ["fmt", "std"] }
