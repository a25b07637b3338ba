[package]
name = "dev_cli"
version = "0.1.0"
edition = "2021"
publish = false

[dependencies]
anyhow = "1"
dirs = "5"
hex = "0.4"
libc = "0.2"
serde_json = { version = "1", features = ["preserve_order"] }
tokio = { version = "1", features = ["rt", "macros", "net", "io-util", "io-std", "process", "time", "sync", "signal", "fs"] }
