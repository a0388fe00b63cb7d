[package]
name = "pomodoro_core"
version = "0.1.0"
edition = "2021"
publish = false

[dependencies]
zbus = "*"
tokio = { version = "*", features = ["rt-multi-thread", "time", "macros"] }
clap = { version = "*", features = ["derive"] }
chrono = "*"
rusqlite = { version = "*", features = ["bundled"] }
