[package]
name = "helicone"
version = "0.1.0"
edition = "2021"
publish = false

[dependencies]
reqwest = { version = "0.12", default-features = false, features = ["default-tls"] }
serde = { version = "1", features = ["derive"] }
tauri = { version = "2", default-features = false }
tokio = { version = "1", features = ["time"] }
