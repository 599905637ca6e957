[package]
name = "stswatcher"
version = "0.1.0"
edition = "2021"
publish = false

[dependencies]
fwatch = "=0.1.5"
config = "=0.11.0"
libsts = "=0.3.1"
reqwest = { version = "=0.11.27", default-features = false, features = ["blocking", "json"] }
serde = { version = "*", features = ["derive"] }
serde_json = "*"
