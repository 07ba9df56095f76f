[package]
name = "zbd_discord_bot"
version = "0.1.0"
edition = "2021"
publish = false

[dependencies]
serde = { version = "=1.0.229", features = ["derive"] }
serde_json = "=1.0.154"
qrcode-generator = "=4.1.9"
reqwest = { version = "=0.12.28", features = ["json"] }
zebedee-rust = "=0.8.0"
anyhow = "=1.0.104"
poise = "=0.6.2"
tokio = { version = "=1.54.1", features = ["macros", "rt-multi-thread"] }
