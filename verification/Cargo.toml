[package]
name = "brosdk"
version = "0.1.0"
edition = "2021"
publish = false

[dependencies]
serde = { version = "1", features = ["derive"] }
serde_json = "1"
chrono = { version = "0.4", default-features = false, features = ["now"] }
once_cell = "1"
reqwest = { version = "0.12", default-features = false, features = ["json"] }
tracing = "0.1"
libloading = "0.8"
tauri = { version = "2", default-features = false, features = ["wry"] }
