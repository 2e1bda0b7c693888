[package]
name = "worker_preview"
version = "0.1.0"
edition = "2021"
publish = false

[dependencies]
atty = "0.2"
chrome-devtools-rs = "0.0.0-alpha.0"
cloudflare = "0.6"
console = "0.9"
failure = "0.1"
futures = "0.3"
futures-util = "0.3"
http = "0.2"
log = "0.4"
reqwest = { version = "0.10", features = ["blocking", "json"] }
serde = { version = "1.0", features = ["derive"] }
serde_json = "1.0"
text_io = "0.1"
tokio = { version = "0.2", features = ["time", "macros", "rt-core", "sync"] }
tokio-tungstenite = "0.10"
url = "2.1"
uuid = { version = "0.8", features = ["v4"] }
