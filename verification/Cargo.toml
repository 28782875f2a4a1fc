[package]
name = "music_library"
version = "0.1.0"
edition = "2021"
publish = false

[dependencies]
chrono = { version = "0.4", default-features = false, features = ["now", "serde"] }
sanitise-file-name = "*"
serde = { version = "1", features = ["derive"] }
serde_json = "1"
