[package]
name = "s4"
version = "0.1.0"
edition = "2021"
publish = false

[dependencies]
fallible-iterator = "0.2"
log = "0.4"
rusoto_core = { version = "0.48", default-features = false, features = ["rustls"] }
rusoto_s3 = { version = "0.48", default-features = false, features = ["rustls"] }
tokio = { version = "1", features = ["io-util", "rt", "rt-multi-thread"] }
