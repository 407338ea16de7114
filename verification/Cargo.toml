[package]
name = "at_tui"
version = "0.1.0"
edition = "2021"
publish = false

[dependencies]
anyhow = "1"
chrono = "0.4"
clap = { version = "4", features = ["derive"] }
crossterm = "*"
directories = "*"
hex = "0.4"
image = { version = "0.25", default-features = false, features = ["png", "jpeg", "gif", "webp"] }
linkify = "*"
open = "*"
ratatui = "*"
ratatui-image = { version = "11", default-features = false, features = ["crossterm"] }
reqwest = { version = "0.12", default-features = false, features = ["rustls-tls"] }
rpassword = "*"
serde = { version = "1", features = ["derive"] }
serde_json = "1"
sha2 = "0.10"
textwrap = "*"
tokio = { version = "1", features = ["macros", "rt-multi-thread", "sync", "time"] }
