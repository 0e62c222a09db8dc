[package]
name = "dx"
version = "0.1.0"
edition = "2021"
publish = false

[dependencies]
base64 = "=0.22.1"
capitalize = "=0.3.4"
chrono = "=0.4.45"
chrono-tz = "=0.10.4"
clap = { version = "=4.6.7", features = ["derive"] }
colored = "=3.1.1"
hex = "=0.4.3"
jsonwebtoken = { version = "=10.4.0", features = ["rust_crypto"] }
lipsum = "=0.8.2"
md-5 = "=0.10.6"
miette = { version = "=7.6.0", features = ["fancy"] }
rand = "=0.9.5"
regex = "=1.13.1"
serde_json = "=1.0.154"
sha2 = "=0.10.9"
stringcase = "=1.0.0"
urlencoding = "=2.1.3"
uuid = { version = "=1.29.0", features = ["v4", "v7"] }
