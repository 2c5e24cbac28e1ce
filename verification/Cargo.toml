[package]
name = "finance"
version = "0.1.0"
edition = "2021"
publish = false

[dependencies]
serde_json = "1"
anyhow = "1"
reqwest = { version = "0.11", default-features = false, features = ["blocking", "rustls-tls"] }
crossterm = "0.25"
tui = "0.19"
