[package]
name = "dmarcer"
version = "0.1.0"
edition = "2021"
publish = false

[dependencies]
anyhow = "1"
chrono = { version = "0.4", default-features = false, features = ["clock", "serde", "std"] }
clap = { version = "4", features = ["derive"] }
colored = "2"
csv = "1"
env_logger = { version = "0.11", default-features = false }
flate2 = "=1.1.10"
futures-util = "0.3"
ipgeolocate = "0.3"
lapin = { version = "2", default-features = false }
lazy_static = "1"
log = "0.4"
prettytable-rs = "0.10"
quick-xml = "=0.37.5"
redis = { version = "0.27", features = ["tokio-comp"] }
reqwest = { version = "0.12", default-features = false, features = ["json"] }
serde = { version = "1", features = ["derive"] }
serde_json = "1"
sqlx = { version = "0.8", default-features = false, features = ["postgres", "runtime-tokio", "json"] }
thiserror = "1"
tokio = { version = "1", features = ["full"] }
tracing = "0.1"
zip = { version = "=2.6.1", default-features = false, features = ["deflate"] }

[dev-dependencies]
regex = "=1.13.1"
