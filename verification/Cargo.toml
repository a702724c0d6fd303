[package]
name = "brainsales_companion"
version = "0.1.0"
edition = "2021"
publish = false

[dependencies]
cpal = "=0.17.3"
dotenv = "0.15"
futures-util = "0.3"
reqwest = { version = "=0.12.28", default-features = false, features = ["json", "rustls-tls"] }
serde = { version = "1", features = ["derive"] }
serde_json = "=1.0.154"
tokio = { version = "1", features = ["macros", "net", "rt-multi-thread", "sync", "time"] }
tokio-tungstenite = { version = "=0.28.0", features = ["rustls-tls-webpki-roots"] }
url = "=2.5.8"
