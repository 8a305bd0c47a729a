[package]
name = "cot_bridge"
version = "0.1.0"
edition = "2021"
publish = false

[dependencies]
chrono = { version = "0.4", default-features = false, features = ["std"] }
tokio = { version = "1", default-features = false, features = ["net", "io-util", "rt", "macros"] }
log = "0.4"
env_logger = "0.10"
exitcode = "1"
