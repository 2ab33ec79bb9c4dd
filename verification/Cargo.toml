[package]
name = "hunter"
version = "0.1.0"
edition = "2021"
publish = false

[dependencies]
colored = "2"
reqwest = "0.12"
serde = { version = "1", features = ["derive"] }
serde_json = "1"
tokio = { version = "1", features = ["macros", "rt-multi-thread"] }
