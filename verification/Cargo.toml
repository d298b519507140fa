[package]
name = "uprimerpay"
version = "0.1.0"
edition = "2021"
publish = false

[dependencies]
hex = "0.4"
md5 = "0.7"
time = { version = "0.3", features = ["formatting", "parsing"] }
url = "2"
serde = { version = "1", features = ["derive"] }
serde_json = "1"
