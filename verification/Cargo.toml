[package]
name = "camera_discovery"
version = "0.1.0"
edition = "2021"
publish = false

[dependencies]
url = "2"
serde = { version = "1", features = ["derive"] }
serde_json = "1"
reqwest = { version = "*", default-features = false, features = ["json"] }
ssdp-client = "*"
futures = "0.3"
tauri = { version = "*", default-features = false }
