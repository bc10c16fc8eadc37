[package]
name = "crawlcore"
version = "0.1.0"
edition = "2021"
publish = false

[dependencies]
chrono = "*"
crossbeam = "*"
jiff = "*"
reqwest = { version = "*", default-features = false, features = ["blocking", "rustls-tls"] }
rusqlite = { version = "*", features = ["bundled"] }
scraper = "*"
serde_json = "*"
url = "*"
