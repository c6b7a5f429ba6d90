[package]
name = "ew-auto-import-tool"
version = "0.1.0"
edition = "2021"
publish = false

[dependencies]
anyhow = "1"
clap = { version = "4", features = ["derive"] }
colored = "2"
inquire = "0.7"
regex = "1"
serde = { version = "1", features = ["derive"] }
serde_json = "1"
spinners = "4"
