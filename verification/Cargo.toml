[package]
name = "db_bench"
version = "0.1.0"
edition = "2021"
publish = false

[dependencies]
rand = "0.8"
clap = { version = "4", features = ["derive"] }
serde = { version = "1", features = ["derive"] }
serde_json = "1"
serde_yaml = "0.9"
tempfile = "3"
tokio = { version = "1", features = ["rt-multi-thread", "macros", "time"] }
indicatif = "0.17"
rocksdb = "0.22"
sled = "0.34"
