[package]
name = "communique"
version = "0.1.0"
edition = "2021"
publish = false

[dependencies]
chrono = "0.4"
log = "0.4"
env_logger = "*"
tokio = { version = "1", features = ["rt", "rt-multi-thread", "macros"] }
zbus = "5"
gtk4 = "*"
gtk4-layer-shell = "*"
