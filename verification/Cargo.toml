[package]
name = "nanabobo"
version = "0.1.0"
edition = "2021"
publish = false

[dependencies]
brotli = "=9.1.1"
flate2 = "=1.1.10"
serde = { version = "=1.0.229", features = ["derive"] }
serde_json = "=1.0.154"
url = "=2.5.8"
uuid = { version = "=1.29.0", features = ["v4"] }
chrono = "=0.4.45"
tokio = { version = "=1.54.1", features = ["rt-multi-thread", "macros", "sync", "time", "net"] }
tokio-tungstenite = { version = "=0.30.0", default-features = false, features = ["connect", "rustls-tls-webpki-roots"] }
futures-util = "=0.3.34"
reqwest = { version = "=0.12.28", default-features = false, features = ["json", "rustls-tls"] }
keyring = "=4.2.0"
qrcode = "=0.14.1"
thiserror = "=2.0.21"
image = { version = "=0.25.10", default-features = false, features = ["png", "jpeg", "webp", "gif"] }
