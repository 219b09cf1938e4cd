[package]
name = "skinproxy"
version = "0.1.0"
edition = "2021"
publish = false

[dependencies]
base64 = "*"
serde_json = "*"
serde = { version = "*", features = ["derive"] }
tokio = { version = "*", features = ["rt", "time", "macros"] }
actix-web = "*"
awc = "*"
structopt = "*"
