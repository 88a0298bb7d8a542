[package]
name = "scan2webdav"
version = "0.1.0"
edition = "2021"
publish = false

[dependencies]
chrono = "=0.4.45"
env_logger = "=0.11.11"
log = "=0.4.34"
reqwest = { version = "0.11", features = ["json", "multipart", "stream"] }
serde = { version = "=1.0.229", features = ["derive"] }
serde_json = "=1.0.154"
tokio = { version = "=1.54.1", features = ["full"] }
trait-variant = "=0.1.3"
warp = "=0.3.7"
