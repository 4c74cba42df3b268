[package]
name = "oxideoverflow"
version = "0.1.0"
edition = "2021"
publish = false

[dependencies]
async-std = "1.7"
reqwest = { version = "0.10", features = ["json"] }
sentry = "0.21"
serde = { version = "1.0", features = ["derive"] }
tokio = { version = "0.2", features = ["macros", "rt-threaded"] }
webhook = "1.0"
