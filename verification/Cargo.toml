[package]
name = "h3_exchange"
version = "0.1.0"
edition = "2021"
publish = false

[dependencies]
anyhow = "1"
bytes = "1"
futures = "0.3"
h3 = "*"
h3-quinn = "*"
http = "1"
quinn = "0.11"
rcgen = "0.14"
rustls = "0.23"
tokio = { version = "1", features = ["full"] }
