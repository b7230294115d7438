[package]
name = "connectors"
version = "0.1.0"
edition = "2021"
publish = false

[dependencies]
rustls = { version = "0.23", default-features = false, features = ["ring", "std", "tls12", "logging"] }
tokio-rustls = { version = "0.26", default-features = false, features = ["ring", "tls12", "logging"] }
webpki-roots = "*"
tokio = { version = "1", features = ["io-util", "net", "rt", "time", "sync", "macros"] }
