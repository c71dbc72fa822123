[package]
name = "pacs_merge"
version = "0.1.0"
edition = "2021"
publish = false

[dependencies]
toml = "=0.8.23"
reqwest = { version = "=0.13.5", default-features = false }
tokio = { version = "=1.53.2", features = ["rt-multi-thread", "macros"] }
