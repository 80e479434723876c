[package]
name = "rss_profiles"
version = "0.1.0"
edition = "2021"
publish = false

[dependencies]
chrono = "0.4"
percent-encoding = "2"
rss = "2"
futures = "0.3"
hotwatch = "0.4"
hyper = { version = "0.14", features = ["server", "http1", "tcp"] }
lazy_static = "1"
log = "0.4"
pretty_env_logger = "0.5"
reqwest = { version = "0.11", default-features = false, features = ["json", "rustls-tls"] }
serde = { version = "1", features = ["derive"] }
serde_json = "1"
tokio = { version = "1", features = ["rt-multi-thread"] }
