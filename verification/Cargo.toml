[package]
name = "acme_micro"
version = "0.1.0"
edition = "2021"
publish = false

[dependencies]
openssl = "*"
serde_json = "*"
tokio = { version = "*", default-features = false, features = ["time", "rt"] }
