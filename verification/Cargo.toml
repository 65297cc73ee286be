[package]
name = "tempo"
version = "0.1.0"
edition = "2021"
publish = false

[dependencies]
anyhow = "1"
barrel = { version = "0.7", features = ["sqlite3"] }
chrono = "0.4"
clap = { version = "3", features = ["derive", "env"] }
directories = "4"
env_logger = "0.9"
log = "0.4"
rusqlite = { version = "0.27", features = ["bundled", "chrono"] }
serde = { version = "1", features = ["derive"] }
serde_json = "1"
tabled = "0.5"
thiserror = "1"
