[package]
name = "lola"
version = "0.1.0"
edition = "2021"
publish = false

[dependencies]
async-trait = "*"
base64 = "=0.13.1"
chrono = { version = "=0.4.45", default-features = false, features = ["clock"] }
directories = "=5.0.1"
futures-util = "*"
jsonpath-rust = "=0.3.5"
reqwest = { version = "=0.11.27", default-features = false, features = ["json", "rustls-tls"] }
rustls = "=0.22.4"
rustls-pemfile = "=2.2.0"
scraper = "=0.17.1"
serde = { version = "*", features = ["derive"] }
serde_json = "*"
sysinfo = "=0.29.11"
tokio = { version = "*", features = ["rt-multi-thread", "macros", "fs", "io-util", "sync", "time"] }
tokio-tungstenite = { version = "=0.21.0", features = ["rustls-tls-webpki-roots"] }
