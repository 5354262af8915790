[package]
name = "terrabad"
version = "1.0.0"
edition = "2021"
publish = false

[dependencies]
clap = "4"
reqwest = { version = "0.11", features = ["json"] }
serde = { version = "1", features = ["derive"] }
serde_json = "1"
tokio = { version = "1", features = ["macros", "rt-multi-thread", "sync", "time"] }
