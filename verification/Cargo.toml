[package]
name = "vs_launcher"
version = "0.5.0"
edition = "2021"
publish = false

[dependencies]
semver = "1"
crossbeam-channel = "0.5"
serde = { version = "1", features = ["derive"] }
serde_json = "1"
reqwest = { version = "0.11", features = ["blocking", "json"] }
compress-tools = "0.14"
dirs = "5"
open = "5"
