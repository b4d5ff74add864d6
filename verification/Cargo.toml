[package]
name = "ws_proxy"
version = "0.1.0"
edition = "2021"
publish = false

[dependencies]
base64 = "0.21"
futures-util = "0.3"
reqwest = { version = "0.11", default-features = false, features = ["rustls-tls-webpki-roots"] }
serde_json = "1"
tokio = { version = "1", features = ["full"] }
tokio-rustls = "0.24"
tokio-tungstenite = "0.20"
webpki-roots = "0.25"
