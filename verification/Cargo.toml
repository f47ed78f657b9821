[package]
name = "loonggamedb"
version = "0.1.0"
edition = "2021"
publish = false

[dependencies]
actix-identity = "=0.8.0"
actix-session = { version = "=0.10.1", features = ["cookie-session"] }
actix-web = { version = "=4.18.1", default-features = false, features = ["macros", "cookies"] }
config = { version = "=0.14.1", default-features = false, features = ["toml"] }
enumflags2 = { version = "=0.7.12", features = ["serde"] }
env_logger = "=0.11.11"
futures = "=0.3.34"
lazy_static = "=1.5.1"
log = "=0.4.34"
oauth2 = "=4.4.2"
reqwest = { version = "=0.11.27", default-features = false, features = ["json", "rustls-tls"] }
sea-orm = { version = "=1.1.20", default-features = false, features = ["macros", "sqlx-sqlite", "runtime-tokio-rustls"] }
serde = { version = "=1.0.229", features = ["derive"] }
sonic-channel2 = { version = "=1.1.2", features = ["ingest"] }
