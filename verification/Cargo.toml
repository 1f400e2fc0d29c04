[package]
name = "rememnemosyne"
version = "0.1.0"
edition = "2021"
publish = false

[dependencies]
chrono = "=0.4.45"
serde = { version = "=1.0.229", features = ["derive"] }
serde_json = "=1.0.154"
rusqlite = "=0.41.1"
reqwest = { version = "*", default-features = false, features = ["blocking", "json"] }
