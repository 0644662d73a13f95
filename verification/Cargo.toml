[package]
name = "brobot"
version = "0.1.0"
edition = "2021"
publish = false

[dependencies]
command_attr = "=0.3.0-rc.2"
crossbeam = "=0.7.3"
dotenv = "=0.15.0"
log = "=0.4.35"
pretty-bytes = "=0.2.2"
pretty_env_logger = "=0.4.0"
reqwest = { version = "=0.10.10", default-features = false, features = ["blocking", "json", "rustls-tls"] }
serde = { version = "=1.0.229", features = ["derive"] }
serde-aux = "=4.7.0"
serde_json = "=1.0.154"
serenity = { version = "=0.9.0-rc.2", default-features = false, features = ["builder", "cache", "client", "framework", "gateway", "http", "model", "rustls_backend", "standard_framework", "utils"] }
tokio = { version = "=0.2.25", features = ["full"] }
url = "=2.5.8"
