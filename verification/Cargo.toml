[package]
name = "diary_sync"
version = "0.1.0"
edition = "2021"
publish = false

[dependencies]
actix-files = "0.5"
actix-web = "3"
ansi-to-html = "0.1"
env_logger = "0.8"
futures = "0.3"
log = "0.4"
maud = "0.22"
serde = { version = "1", features = ["derive"] }
