[package]
name = "minetest_session"
version = "0.1.0"
edition = "2021"
publish = false

[dependencies]
ahash = "0.8"
clap = { version = "4", features = ["derive"] }
configparser = "*"
ctrlc = "3"
env_logger = "*"
message-io = "0.18"
spin_sleep_util = "0.1"
