[package]
name = "estranged"
version = "0.1.0"
edition = "2021"
publish = false

[dependencies]
url = { version = "=2.5.8", features = ["serde"] }
serde = { version = "=1.0.229", features = ["derive"] }
chrono = { version = "=0.4.45", features = ["serde"] }
reqwest = { version = "=0.12.28", default-features = false, features = ["json", "rustls-tls"] }
tokio = { version = "=1.54.1", features = ["sync", "rt-multi-thread", "macros"] }
governor = "=0.10.4"
futures-util = "=0.3.34"
axum = "=0.8.9"
axum-extra = { version = "=0.12.6", features = ["typed-header"] }
headers = "=0.4.2"
http = "=1.5.0"
langtag = { version = "=1.1.0", features = ["serde"] }
monostate = "=1.0.3"
thiserror = "=2.0.21"
tracing = "=0.1.44"
garde = "=0.23.0"
