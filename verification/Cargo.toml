[package]
name = "electric_oxen"
version = "0.1.0"
edition = "2021"
publish = false

[dependencies]
clap = "2"
flate2 = "1"
reqwest = { version = "0.12", default-features = false, features = ["blocking", "gzip", "json", "multipart", "rustls-tls"] }
serde = { version = "1", features = ["derive"] }
serde_json = "1"
