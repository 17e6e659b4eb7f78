[package]
name = "rzup"
version = "0.1.0"
edition = "2021"
publish = false

[dependencies]
semver = "1"
serde = { version = "1", features = ["derive"] }
reqwest = { version = "0.12", default-features = false, features = ["blocking", "json", "rustls-tls"] }
