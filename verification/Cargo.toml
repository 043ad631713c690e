[package]
name = "arango_transaction"
version = "0.1.0"
edition = "2021"
publish = false

[dependencies]
maybe-async = { version = "0.2", features = ["is_sync"] }
serde = { version = "1", features = ["derive"] }
serde_json = "1"
url = "2"
