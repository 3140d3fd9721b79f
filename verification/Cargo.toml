[package]
name = "freshview"
version = "0.1.0"
edition = "2021"
publish = false

[dependencies]
anyhow = "=1.0.104"
crossterm = "=0.28.1"
dirs = "=6.0.0"
egui = "=0.30.0"
egui_dock = "=0.15.0"
env_logger = "=0.11.11"
interprocess = { version = "2", features = ["tokio"] }
log = "0.4"
ratatui = { version = "=0.29.0", default-features = false }
serde = { version = "1", features = ["derive"] }
serde_json = "1"
sysinfo = { version = "0.33", default-features = false, features = ["system"] }
tokio = { version = "1", default-features = false, features = ["rt-multi-thread", "io-util", "net"] }
