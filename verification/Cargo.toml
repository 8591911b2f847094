[package]
name = "dns_proxy"
version = "0.1.0"
edition = "2021"
publish = false

[dependencies]
base64 = "0.21"
hyper = { version = "0.14", features = ["full"] }
hyper-rustls = { version = "0.24", features = ["http2"] }
rand = "0.8"
rustls = "0.21"
rustls-pemfile = "1"
simple-dns = "*"
tokio = { version = "1", features = ["full"] }
url = "2"
