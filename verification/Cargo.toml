[package]
name = "webarcade"
version = "0.1.0"
edition = "2021"
publish = false

[dependencies]
rand = "=0.8.8"
urlencoding = "=2.1.3"
hmac = "=0.12.1"
sha2 = "=0.10.9"
hex = "=0.4.3"
percent-encoding = "2"
anyhow = "=1.0.104"
log = "=0.4.35"
serde = { version = "=1.0.229", features = ["derive"] }
serde_json = "=1.0.154"
chrono = "=0.4.45"
rusqlite = { version = "=0.31.0", features = ["bundled"] }
tokio = { version = "=1.54.1", features = ["rt-multi-thread", "macros", "net", "io-util", "sync", "time"] }
hyper = { version = "=1.12.0", features = ["http1", "server"] }
http-body-util = "=0.1.5"
reqwest = { version = "=0.12.28", default-features = false, features = ["json"] }
dirs = "=5.0.1"
