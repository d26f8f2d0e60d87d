[package]
name = "pomodoro_timer"
version = "0.1.0"
edition = "2021"
publish = false

[dependencies]
chrono = { version = "=0.4.45", default-features = false, features = ["clock"] }
clap = { version = "=4.6.7", default-features = false, features = ["std", "derive", "help", "usage", "error-context"] }
crossterm = { version = "=0.27.0", default-features = false, features = ["events"] }
notify-rust = "=4.18.2"
rodio = { version = "0.20", default-features = false, features = ["wav"] }
rusqlite = { version = "=0.31.0", features = ["bundled"] }
thiserror = "=1.0.69"
tokio = { version = "=1.54.1", default-features = false, features = ["macros", "rt-multi-thread", "sync", "time"] }
