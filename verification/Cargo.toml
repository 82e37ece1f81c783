[package]
name = "awair_exporter"
version = "0.1.0"
edition = "2021"
publish = false

[dependencies]
tokio = { version = "1", features = ["macros", "rt-multi-thread"] }
warp = "0.3"
reqwest = { version = "0.11", default-features = false }
structopt = "0.3"
log = "0.4"
env_logger = "0.9"
