[package]
name = "review_harvest"
version = "0.1.0"
edition = "2021"
publish = false

[dependencies]
csv = "*"
scraper = "*"
reqwest = { version = "*", default-features = false, features = ["blocking"] }
