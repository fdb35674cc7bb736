[package]
name = "barley_actions"
version = "0.1.0"
edition = "2021"
publish = false

[dependencies]
tokio = { version = "*", features = ["process", "rt"] }
reqwest = { version = "*", default-features = false, features = ["rustls-tls"] }
uuid = { version = "*", features = ["v4"] }
