[package]
name = "quiz_engine"
version = "0.1.0"
edition = "2021"
publish = false

[dependencies]
serde_json = "=1.0.151"
serde = { version = "=1.0.229", features = ["derive"] }
reqwest = { version = "=0.12.28", default-features = false, features = ["json", "rustls-tls"] }
tokio = { version = "=1.53.2", features = ["macros", "rt-multi-thread", "time"] }
teloxide = "=0.17.0"
takecell = "=0.1.1"
dotenvy = "=0.15.7"
log = "=0.4.34"
pretty_env_logger = "=0.5.0"
