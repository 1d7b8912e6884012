[package]
name = "proxylib"
version = "0.1.0"
edition = "2021"
publish = false

[dependencies]
hyper = { version = "0.14", features = ["http1", "client", "server", "tcp"] }
thiserror = "1"
