[package]
name = "agentd"
version = "0.1.0"
edition = "2021"
publish = false

[dependencies]
anyhow = "1"
camino = "1"
chrono = "0.4"
clap = { version = "4", features = ["derive"] }
crossterm = "0.29"
indexmap = { version = "2", features = ["serde"] }
libc = "0.2"
nix = { version = "0.30", features = ["signal", "user", "process", "fs", "term", "poll"] }
ratatui = "0.29"
rusqlite = { version = "0.37", features = ["bundled"] }
serde = { version = "1", features = ["derive"] }
serde_json = "1"
tokio = { version = "1", features = ["full"] }
toml = "0.9"
