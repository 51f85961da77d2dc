[package]
name = "fido"
version = "0.1.0"
edition = "2021"
publish = false

[dependencies]
emojis = "=0.9.1"
nucleo-matcher = "=0.3.1"
uuid = { version = "=1.29.0", features = ["v4"] }
clap = { version = "=4.6.7", features = ["derive", "env"] }
dirs = "=7.0.0"
dotenv = "=0.15.0"
log = "=0.4.35"
anyhow = "=1.0.104"
serde_json = "=1.0.154"
urlencoding = "=2.1.3"
chrono = "=0.4.45"
crossterm = "0.28"
