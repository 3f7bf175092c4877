[package]
name = "uptobox"
version = "0.1.0"
edition = "2021"
publish = false

[dependencies]
json-patch = "=4.2.0"
reqwest = { version = "=0.13.5", features = ["json", "query"] }
serde = { version = "=1.0.229", features = ["derive"] }
serde_json = "=1.0.154"
thiserror = "=2.0.21"
