[package]
name = "sevenkey_global_bot"
version = "0.1.0"
edition = "2021"
publish = false

[dependencies]
celes = "2"
emojis = "0.6"
serde = { version = "1", features = ["derive"] }
serde_json = "1"
rusqlite = { version = "*", features = ["bundled"] }
serenity = "0.12"
tokio = { version = "1", features = ["macros", "rt-multi-thread"] }
reqwest = { version = "0.12", default-features = false, features = ["rustls-tls", "json"] }
