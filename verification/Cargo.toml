[package]
name = "cofd"
version = "0.1.0"
edition = "2021"
publish = false

[dependencies]
convert_case = "0.6"
serde = { version = "1", features = ["derive"] }
ron = "*"
anyhow = "*"
tokio = { version = "1", features = ["rt-multi-thread", "macros"] }
reqwest = { version = "0.12", default-features = false, features = ["rustls-tls"] }
scraper = "*"
