[package]
name = "inmobiliaria_inbox"
version = "0.1.0"
edition = "2021"
publish = false

[dependencies]
chrono = "0.4"
env_logger = "0.11"
keyring = "3"
log = "0.4"
mime_guess = "2"
notify = "8"
notify-debouncer-mini = "0.7"
open = "5"
png = "0.17"
reqwest = { version = "0.12", features = ["json", "multipart"] }
serde = { version = "1", features = ["derive"] }
serde_json = "1"
tokio = { version = "1", features = ["full"] }
