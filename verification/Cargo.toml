[package]
name = "hybrid_cache"
version = "0.1.0"
edition = "2021"
publish = false

[dependencies]
auto_encoder = "=0.2.4"
base64 = "=0.23.1"
http = "=1.5.0"
http-cache = { version = "=1.0.0-alpha.8", default-features = false, features = ["url-standard", "manager-cacache"] }
http-cache-reqwest = { version = "=1.0.0-alpha.9", default-features = false, features = ["manager-cacache", "reqwest-middleware"] }
http-cache-semantics = "=3.0.0"
http-global-cache = "=0.2.0"
lol_html = "=3.0.1"
reqwest = { version = "=0.13.5", default-features = false, features = ["json"] }
serde = { version = "=1.0.229", features = ["derive"] }
tokio = { version = "*", features = ["rt", "sync", "time", "macros"] }
tokio-stream = "*"
tracing = "*"
url = "=2.5.8"
