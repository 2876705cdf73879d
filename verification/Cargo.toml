[package]
name = "sagiri"
version = "0.1.0"
edition = "2021"
publish = false

[dependencies]
url = "2"
serde = { version = "1", features = ["derive"] }
serde_json = "1"
reqwest = { version = "0.12", default-features = false, features = ["blocking", "json"] }
log = "0.4"
env_logger = "0.11"
