[package]
name = "btc_tracker"
version = "1.0.0"
edition = "2021"
publish = false

[dependencies]
colored = "2"
dotenv = "0.15"
reqwest = { version = "0.11", features = ["json"] }
rusqlite = "0.29"
serde = { version = "1", features = ["derive"] }
serde_json = "1"
tokio = { version = "1", features = ["macros", "rt-multi-thread", "time", "signal", "sync"] }
