[package]
name = "imap_engine"
version = "0.1.0"
edition = "2021"
publish = false

[dependencies]
anyhow = "1"
libc = "0.2"
native-tls = "0.2"
tokio = { version = "1", features = ["net", "time", "rt"] }
tokio-io-timeout = "1"
