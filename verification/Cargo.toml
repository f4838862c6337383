[package]
name = "steam_cloud_files"
version = "0.1.0"
edition = "2021"
publish = false

[dependencies]
sha1 = "0.10"
egui-phosphor = "*"
chrono = "0.4"
serde = { version = "1", features = ["derive"] }
serde_json = "1"
toml = "*"
anyhow = "1"
uuid = { version = "1", features = ["v4"] }
walkdir = "2"
