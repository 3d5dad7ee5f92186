[package]
name = "apollo"
version = "0.1.0"
edition = "2021"
publish = false

[dependencies]
anyhow = "1"
cargo-ptest = "*"
serde = { version = "1", features = ["derive"] }
serde_json = "1"
zed-util = { version = "0.2.0", default-features = false }
