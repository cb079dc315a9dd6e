[package]
name = "fan_dashboard"
version = "0.1.0"
edition = "2021"
publish = false

[dependencies]
chrono = "0.4"
clap = { version = "4", features = ["derive"] }
crossterm = "0.25"
rusqlite = { version = "*", features = ["bundled"] }
tui = "0.19"
