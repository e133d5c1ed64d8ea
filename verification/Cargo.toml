[package]
name = "chooui"
version = "0.1.0"
edition = "2021"
publish = false

[dependencies]
anyhow = "1"
confy = "*"
crossterm = "0.28"
lofty = "*"
mpv = "*"
rand = "0.9"
ratatui = "0.29"
rusqlite = { version = "*", features = ["bundled"] }
serde = { version = "1", features = ["derive"] }
tui-input = "*"
walkdir = "2"
xxhash-rust = { version = "0.8", features = ["xxh3"] }
