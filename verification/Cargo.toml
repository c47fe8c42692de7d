[package]
name = "nimbus"
version = "0.1.0"
edition = "2021"
publish = false

[dependencies]
anyhow = "1"
async-trait = "*"
chrono = { version = "*", features = ["serde"] }
clap = { version = "4", features = ["derive"] }
crossterm = "*"
dirs = "=7.0.0"
ratatui = { version = "*", default-features = false, features = ["crossterm"] }
reqwest = { version = "*", default-features = false, features = ["json"] }
serde = { version = "1", features = ["derive"] }
serde_json = "=1.0.154"
serde_yaml = "*"
thiserror = "*"
tokio = { version = "1", features = ["full"] }
toml = "*"
tracing = "*"
urlencoding = "=2.1.3"
