[package]
name = "nowpayments"
version = "0.2.3"
edition = "2021"
publish = false

[dependencies]
anyhow = "1"
chrono = { version = "0.4", features = ["serde"] }
convert_case = "0.6"
dotenvy = "0.15"
reqwest = { version = "0.12", default-features = false, features = ["json"] }
rust_decimal = "1"
serde = { version = "1", features = ["derive"] }
serde_json = "1"
