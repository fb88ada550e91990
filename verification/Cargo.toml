[package]
name = "lexichat"
version = "0.1.0"
edition = "2021"
publish = false

[dependencies]
ammonia = "=4.2.1"
base64 = "=0.23.1"
tokenizers = "=0.23.2"
serde = { version = "=1.0.229", features = ["derive"] }
serde_json = "=1.0.151"
reqwest = { version = "=0.12.28", default-features = false, features = ["json", "rustls-tls"] }
tokio = { version = "=1.53.2", features = ["rt-multi-thread", "macros", "time", "sync"] }
ort = { version = "=2.0.0-rc.13", default-features = false, features = ["ndarray", "std"] }
ndarray = "=0.17.2"
hf-hub = { version = "=0.5.0", default-features = false, features = ["ureq"] }
dirs = "=7.0.0"
once_cell = "=1.21.4"
parking_lot = "=0.12.5"
