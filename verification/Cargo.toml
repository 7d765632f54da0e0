[package]
name = "linechat"
version = "0.1.0"
edition = "2021"
publish = false

[dependencies]
rusqlite = { version = "=0.40.2", features = ["bundled"] }
sha1 = "=0.10.7"
tokio = { version = "=1.53.2", features = ["rt-multi-thread", "net", "io-util", "sync", "macros"] }
