[package]
name = "diffusionbee_core"
version = "0.1.0"
edition = "2021"
publish = false

[dependencies]
anyhow = "1"
dirs = "*"
serde = { version = "1", features = ["derive"] }
serde_json = "1"
tauri = { version = "2", default-features = false }
thiserror = "*"
