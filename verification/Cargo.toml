[package]
name = "voice_chat"
version = "0.1.0"
edition = "2021"
publish = false

[dependencies]
anyhow = "=1.0.104"
clap = { version = "=4.6.7", features = ["derive"] }
cpal = "=0.15.3"
hound = "=3.5.1"
reqwest = { version = "0.11", features = ["blocking", "multipart", "json"] }
serde = { version = "=1.0.229", features = ["derive"] }
serde_json = "=1.0.154"
