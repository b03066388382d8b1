[package]
name = "oauth_refresh"
version = "0.1.0"
edition = "2021"
publish = false

[dependencies]
tame-oauth = "=0.4.7"
http = "=0.2.12"
serde_json = "=1.0.151"
hyper = { version = "=0.14.32", features = ["client", "http1", "http2", "tcp"] }
hyper-rustls = "=0.23.2"
