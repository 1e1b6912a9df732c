[package]
name = "astro_alerts"
version = "0.1.0"
edition = "2021"
publish = false

[dependencies]
chrono = { version = "0.4", features = ["serde"] }
serde = { version = "1", features = ["derive"] }
serde_json = "1"
serde_repr = "0.1"
actix-web = { version = "4", default-features = false, features = ["macros"] }
tokio = { version = "1", features = ["macros", "rt-multi-thread", "time"] }
deadpool-redis = "0.23"
redis = "*"
mongodb = { version = "3", default-features = false, features = ["compat-3-0-0", "rustls-tls"] }
futures = "0.3"
reqwest = { version = "0.12", default-features = false, features = ["json", "rustls-tls"] }
critter = "*"
dotenv = "0.15"
env_logger = { version = "0.11", default-features = false }
log = "0.4"
lazy_static = "1"
once_cell = "1"
