[package]
name = "lunaris_core"
version = "0.1.0"
edition = "2021"
publish = false

[dependencies]
toml = "*"
futures = "*"
serde = { version = "*", features = ["derive"] }
serde_json = "*"
slab = "*"
tokio = { version = "*", features = ["rt-multi-thread", "time", "sync"] }
cargo_toml = "*"
tempfile = "*"
toml_edit = "*"
walkdir = "*"
