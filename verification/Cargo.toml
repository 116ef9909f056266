[package]
name = "scalar"
version = "0.1.0"
edition = "2021"
publish = false

[dependencies]
fastcrypto = "=0.1.11"
fastcrypto-zkp = "=0.1.4"
regex = "=1.13.1"
tokio = { version = "=1.54.1", features = ["full"] }
prometheus = "*"
clap = { version = "=4.6.7", features = ["derive"] }
anyhow = "=1.0.104"
tempfile = "=3.27.0"
