[package]
name = "agw_core"
version = "0.1.0"
edition = "2021"
publish = false

[dependencies]
serde_json = "=1.0.151"
serde = { version = "*", features = ["derive"] }
arc-swap = "=1.9.2"
tokio = { version = "=1.53.2", features = ["full"] }
async-trait = "=0.1.92"
redis = { version = "=1.7.1", features = ["tokio-comp"] }
log = "=0.4.34"
env_logger = "=0.11.11"
anyhow = "=1.0.104"
clap = { version = "=4.6.7", features = ["derive"] }
aya = "=0.14.0"
sqlx = { version = "*", default-features = false, features = ["postgres", "mysql", "runtime-tokio"] }
