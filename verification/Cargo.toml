[package]
name = "baseus_desktop"
version = "0.1.0"
edition = "2021"
publish = false

[dependencies]
uuid = "1"
serde = { version = "1", features = ["derive"] }
serde_json = "1"
tokio = { version = "1", features = ["sync", "time", "macros", "rt"] }
futures = "0.3"
once_cell = "1"
log = "0.4"
env_logger = { version = "0.11", default-features = false }
tauri = { version = "2", default-features = false, features = ["wry"] }
