[package]
name = "voice_relay"
version = "0.1.0"
edition = "2021"
publish = false

[dependencies]
bytes = "1"
dotenv = "0.15"
glob = "0.3"
reqwest = { version = "0.11", features = ["json"] }
serde_json = "1"
serenity = { version = "0.11", features = ["voice"] }
songbird = "0.3"
tokio = { version = "1", features = ["macros", "rt-multi-thread"] }
