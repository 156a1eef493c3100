[package]
name = "discord_imhex"
version = "0.1.0"
edition = "2021"
publish = false

[dependencies]
semver = "1"
chrono = "*"
dirs = "*"
discord-rich-presence = "*"
open = "*"
reqwest = { version = "*", default-features = false, features = ["json", "rustls-tls"] }
serde = { version = "*", features = ["derive"] }
systray = "*"
tokio = { version = "*", features = ["rt-multi-thread", "time"] }
winapi = { version = "*", features = ["winuser", "winbase", "minwindef", "windef"] }
