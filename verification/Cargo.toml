[package]
name = "mangofetch"
version = "0.1.0"
edition = "2021"
publish = false

[dependencies]
tokio-util = "0.7"
tokio = { version = "1", features = ["rt", "sync", "time", "macros"] }
serde = { version = "1", features = ["derive"] }
tracing = "0.1"
egui = "0.31"
