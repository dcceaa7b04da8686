[package]
name = "lobby_companion"
version = "0.1.0"
edition = "2021"
publish = false

[dependencies]
serde = { version = "1", features = ["derive"] }
serde_json = "1"
shaco = "0.6.0"
reqwest = { version = "0.11", features = ["json"] }
tokio = { version = "1", features = ["fs", "sync", "time"] }
