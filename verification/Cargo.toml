[package]
name = "bbiribarabu"
version = "0.1.0"
edition = "2021"
publish = false

[dependencies]
vt100 = "=0.15.2"
unicode-width = "=0.1.14"
crossterm = "=0.27.0"
ratatui = "=0.26.3"
portable-pty = "=0.8.1"
chrono = { version = "=0.4.45", features = ["serde"] }
serde = { version = "=1.0.229", features = ["derive"] }
serde_json = "=1.0.154"
clap = { version = "=4.6.7", features = ["derive"] }
reqwest = { version = "=0.12.28", features = ["blocking"] }
