[package]
name = "zdownload"
version = "0.1.0"
edition = "2021"
publish = false

[dependencies]
url = "=2.5.8"
tokio = { version = "=1.54.1", features = ["rt-multi-thread", "macros", "process", "io-util", "sync", "signal"] }
dirs = "=7.0.0"
which = "=8.0.6"
sys-locale = "=0.3.2"
reqwest = { version = "=0.12.28", default-features = false, features = ["rustls-tls"] }
