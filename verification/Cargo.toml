[package]
name = "kosync"
version = "0.1.0"
edition = "2021"
publish = false

[dependencies]
argh = "*"
chrono = "=0.4.45"
log = "*"
pretty_env_logger = "*"
redis = { version = "=1.7.1", features = ["tokio-comp"] }
serde = { version = "*", features = ["derive"] }
tokio = { version = "*", features = ["macros", "rt-multi-thread"] }
warp = { version = "=0.4.3", features = ["server"] }
