[package]
name = "voicefox"
version = "0.1.0"
edition = "2021"
publish = false

[dependencies]
unicode-width = "=0.2.3"
md-5 = "=0.10.6"
serde = { version = "=1.0.229", features = ["derive"] }
serde_json = "=1.0.154"
reqwest = { version = "=0.12.28", default-features = false }
tokio = { version = "=1.54.1", features = ["rt-multi-thread", "fs", "time", "io-util", "macros", "sync"] }
anyhow = "=1.0.104"
thiserror = "=2.0.21"
dirs = "=6.0.0"
tracing = "=0.1.44"
crossterm = "=0.28.1"
clap = { version = "=4.6.7", features = ["derive"] }
toml = "=0.8.23"
qrcode = { version = "0.14", default-features = false }
