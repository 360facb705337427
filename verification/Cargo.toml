[package]
name = "discord_rpc_helper"
version = "0.1.0"
edition = "2021"
publish = false

[dependencies]
url = "=2.5.8"
scraper = "=0.27.0"
html-escape = "=0.2.15"
anyhow = "=1.0.104"
serde = { version = "=1.0.229", features = ["derive"] }
serde_json = "=1.0.151"
sysinfo = { version = "=0.39.6", default-features = false, features = ["system"] }
tokio = { version = "=1.53.2", features = ["macros", "rt-multi-thread", "signal", "time", "sync", "fs"] }
reqwest = { version = "=0.13.5", default-features = false, features = ["cookies", "form"] }
reqwest_cookie_store = "=0.10.0"
discord-rich-presence = "=1.1.0"
discord-sdk = "=0.4.0"
async-trait = "=0.1.92"
tracing = "=0.1.44"
tracing-subscriber = { version = "=0.3.23", default-features = false, features = ["fmt"] }
