[package]
name = "apple-music-discord-rs"
version = "0.1.0"
edition = "2021"
publish = false

[dependencies]
ctrlc = "3"
discord-presence = "*"
objc2 = "0.6"
objc2-foundation = "0.3"
objc2-media-player = "0.3"
reqwest = { version = "0.12", features = ["blocking", "json"] }
serde = { version = "1", features = ["derive"] }
thiserror = "*"
url = "2"
