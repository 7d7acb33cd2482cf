[package]
name = "topk_cli"
version = "0.1.0"
edition = "2021"
publish = false

[dependencies]
anyhow = "1"
base64 = "0.22"
bytesize = "1"
chrono = "0.4"
colored = "2"
comfy-table = "7"
dirs = "5"
serde = { version = "1", features = ["derive"] }
serde_json = "1"
sha2 = "0.10"
terminal_size = "0.4"
toml = "0.8"
