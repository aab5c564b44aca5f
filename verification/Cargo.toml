[package]
name = "fabricks"
version = "0.1.0"
edition = "2021"
publish = false

[dependencies]
sha2 = "=0.10.9"
hex = "=0.4.3"
uuid = { version = "=1.29.0", features = ["v4"] }
chrono = "=0.4.45"
serde = { version = "=1.0.229", features = ["derive"] }
serde_json = "=1.0.154"
tokio = { version = "=1.54.1", features = ["sync", "rt", "rt-multi-thread", "macros", "net", "time", "io-util", "io-std"] }
clap = { version = "=4.6.7", features = ["derive"] }
url = "=2.5.8"
dirs = "=5.0.1"
toml = "=0.8.23"
anyhow = "1"
bytes = "1"
hyper = { version = "1", features = ["client", "http1"] }
hyper-util = { version = "0.1", features = ["tokio"] }
http-body-util = "0.1"
keyring = "3"
rpassword = "7"
