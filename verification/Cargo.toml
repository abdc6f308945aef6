[package]
name = "ax206lcd"
version = "0.1.0"
edition = "2021"
publish = false

[dependencies]
anyhow = "1"
chrono = "0.4"
config = { version = "0.14", default-features = false, features = ["ini"] }
env_logger = "0.11"
image = { version = "0.24", default-features = false, features = ["png"] }
imageproc = { version = "0.23", default-features = false }
indexmap = { version = "2", features = ["serde"] }
log = "0.4"
ordermap = "0.5"
regex = "1"
rev_buf_reader = "0.3"
rusb = "0.9"
rusttype = "0.9"
serde = { version = "1", features = ["derive"] }
sysinfo = "0.30"
systemstat = "0.2"
thiserror = "1"
tokio = { version = "1", features = ["macros", "rt-multi-thread", "time", "process"] }
