[package]
name = "schliessfach-manager"
version = "2.1.0"
edition = "2021"
publish = false

[dependencies]
chrono = "0.4"
anyhow = "1"
color-eyre = "0.6"
crossterm = "0.28"
directories = "5"
ratatui = "0.29"
rusqlite = { version = "0.32", features = ["bundled"] }
serde = { version = "1", features = ["derive"] }
serde_json = "1"
unicode-width = "0.2"
csv = "1"
