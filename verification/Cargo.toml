[package]
name = "agora"
version = "0.1.0"
edition = "2021"
publish = false

[dependencies]
bincode = "=1.3.3"
serde = { version = "1", features = ["derive"] }
log = "0.4"
env_logger = "0.10"
dotenv = "0.15"
futures-util = "0.3"
lapin = { version = "2", default-features = false }
tokio = { version = "1", features = ["rt-multi-thread", "macros"] }
tonic = { version = "0.9", default-features = false }
