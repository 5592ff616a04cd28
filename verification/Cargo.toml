[package]
name = "metatube-cli"
version = "0.1.0"
edition = "2021"
publish = false

[dependencies]
anyhow = "1"
chrono = "0.4"
clap = { version = "4", features = ["derive", "env"] }
croner = "2"
crossterm = "0.28"
dirs = "5"
futures = "0.3"
notify = "7"
notify-debouncer-mini = "0.5"
ratatui = "0.29"
regex = "1"
reqwest = { version = "0.12", default-features = false, features = ["json", "rustls-tls"] }
serde = { version = "1", features = ["derive"] }
thiserror = "2"
tokio = { version = "1", features = ["full"] }
toml = "0.8"
tracing = "0.1"
tracing-subscriber = { version = "0.3", features = ["env-filter"] }
unicode-width = "0.2"
urlencoding = "2"

[dev-dependencies]
tempfile = "3"
serde_json = "1"
