[package]
name = "transcription"
version = "0.1.0"
edition = "2021"
publish = false

[dependencies]
hound = "=3.5.1"
serde = { version = "1", features = ["derive"] }
tokio = { version = "1", default-features = false, features = ["rt", "sync"] }
whisper-rs = { version = "0.13", default-features = false }
