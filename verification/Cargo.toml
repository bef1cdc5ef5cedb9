[package]
name = "pharmacy_bot"
version = "0.1.0"
edition = "2021"
publish = false

[dependencies]
chrono = { version = "=0.4.45", features = ["serde"] }
dotenvy = "=0.15.7"
env_logger = "=0.11.11"
envconfig = "=0.11.1"
futures = "=0.3.34"
log = "=0.4.34"
serde = { version = "=1.0.229", features = ["derive"] }
sqlx = { version = "=0.9.0", default-features = false, features = ["runtime-tokio", "postgres", "sqlite", "chrono", "derive"] }
takecell = ">=0.1.0, <0.1.2"
teloxide = { version = "=0.17.0", default-features = false, features = ["macros", "ctrlc_handler", "rustls"] }
thiserror = "=2.0.21"
tokio = { version = "=1.54.1", features = ["macros", "rt-multi-thread"] }
tokio-cron-scheduler = "=0.15.1"
