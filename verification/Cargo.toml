[package]
name = "solana_archiver"
version = "0.1.0"
edition = "2021"
publish = false

[dependencies]
chrono = "0.4"
zstd = "0.13"
tokio = { version = "1", features = ["full"] }
log = "0.4"
log4rs = "1"
sysinfo = "0.29"
futures-util = "0.3"
tokio-tungstenite = { version = "0.21", features = ["rustls-tls-webpki-roots"] }
serde_json = "1"
reqwest = { version = "0.11", default-features = false, features = ["json", "rustls-tls"] }
dotenv = "0.15"
