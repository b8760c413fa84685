[package]
name = "qr_utility"
version = "0.1.0"
edition = "2021"
publish = false

[dependencies]
anyhow = "1"
arboard = "3"
async-trait = "0.1"
axum = "0.8"
chrono = { version = "0.4", features = ["serde"] }
clap = { version = "4", features = ["derive"] }
crossterm = "0.28"
csv = "1"
image = { version = "0.25", default-features = false, features = ["png", "jpeg"] }
open = "5"
qrcode = { version = "0.14", default-features = false }
ratatui = "0.29"
serde = { version = "1", features = ["derive"] }
serde_json = "1"
tokio = { version = "1", features = ["rt-multi-thread", "macros", "net", "sync", "time"] }
toml = "0.8"
url = "2"
uuid = { version = "1", features = ["v4"] }
