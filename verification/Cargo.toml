[package]
name = "ledger_store"
version = "0.1.0"
edition = "2021"
publish = false

[dependencies]
rusqlite = { version = "*", features = ["bundled"] }
serde_json = "*"
serde = { version = "*", features = ["derive"] }
urlencoding = "*"
reqwest = { version = "*", default-features = false, features = ["blocking"] }
