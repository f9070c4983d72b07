[package]
name = "rcli"
version = "0.1.0"
edition = "2021"
publish = false

[dependencies]
anyhow = "1"
axum = "0.7"
base64 = "0.22"
blake3 = { version = "1", features = ["pure"] }
clap = { version = "4", features = ["derive"] }
ed25519-dalek = { version = "2", features = ["rand_core"] }
rand = "0.8"
tokio = { version = "1", features = ["rt-multi-thread", "macros", "net", "fs"] }
tracing = "0.1"
tracing-subscriber = "0.3"
zxcvbn = "3"
