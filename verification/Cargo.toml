[package]
name = "vocal_note_taker"
version = "0.1.0"
edition = "2021"
publish = false

[dependencies]
cpal = "0.15"
dirs = "5"
hound = "3.5"
serde = { version = "1", features = ["derive"] }
serde_json = "1"
thiserror = "1"
tokio = { version = "1", features = ["sync", "rt"] }
whisper-rs = "0.15"
