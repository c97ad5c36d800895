[package]
name = "swirly"
version = "0.1.0"
edition = "2021"
publish = false

[dependencies]
swayipc = "*"
wayfire-rs = "*"
serde = { version = "*", features = ["derive"] }
serde_json = "*"
toml = "*"
log = "*"
env_logger = "*"
tokio = { version = "*", features = ["rt", "macros"] }
