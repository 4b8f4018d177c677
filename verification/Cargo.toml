[package]
name = "tapedeck"
version = "0.1.0"
edition = "2021"
publish = false

[dependencies]
sha2 = "0.10"
anyhow = "1"
async-trait = "0.1"
clap = { version = "4", features = ["derive"] }
crossterm = "*"
evdev = "*"
libc = "0.2"
ratatui = "*"
rusqlite = { version = "*", features = ["bundled"] }
serde = { version = "1", features = ["derive"] }
serde_json = "1"
tokio = { version = "1", features = ["macros", "rt-multi-thread", "process", "time", "io-util"] }
toml = "*"
