[package]
name = "voice_input"
version = "0.1.0"
edition = "2021"
publish = false

[dependencies]
rubato = "*"
voice_activity_detector = "*"
chrono = "*"
serde = { version = "*", features = ["derive"] }
serde_json = "*"
reqwest = { version = "*", default-features = false, features = ["blocking", "json"] }
