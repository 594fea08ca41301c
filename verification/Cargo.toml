[package]
name = "dementia"
version = "0.2.0"
edition = "2021"
publish = false

[dependencies]
serde_json = "1"
serde = "1"
serde_derive = "1"
url = "1.7"
rand = "0.8"
reqwest = { version = "0.12", default-features = false, features = ["blocking", "json", "rustls-tls"] }
