[package]
name = "toolcore"
version = "0.1.0"
edition = "2021"
publish = false

[dependencies]
serde_json = { version = "*", features = ["arbitrary_precision"] }
serde = { version = "*", features = ["derive"] }
anyhow = "*"
reqwest = { version = "*", default-features = false }
rmcp = "*"
schemars = "*"
tokio = { version = "*", features = ["full"] }
tracing = "*"
tracing-subscriber = { version = "*", features = ["env-filter"] }
