[package]
name = "gbx"
version = "0.1.0"
edition = "2021"
publish = false

[dependencies]
serde = { version = "=1.0.229", features = ["derive"] }
serde_json = "=1.0.154"
rkyv = "=0.8.18"
smallvec = "=1.16.4"
anyhow = "1"
clap = { version = "4", features = ["derive"] }
