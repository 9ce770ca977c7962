[package]
name = "lightwhisper"
version = "0.1.0"
edition = "2021"
publish = false

[dependencies]
arboard = { version = "3", default-features = false }
cpal = "0.15"
dirs = "*"
enigo = "*"
futures-util = "0.3"
hound = "3"
parakeet-rs = "*"
reqwest = { version = "0.12", default-features = false, features = ["stream", "rustls-tls"] }
serde = { version = "1", features = ["derive"] }
serde_json = "1"
tokio = { version = "1", features = ["fs", "io-util"] }
whisper-rs = "*"
