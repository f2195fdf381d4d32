[package]
name = "poem"
version = "0.1.0"
edition = "2021"
publish = false

[dependencies]
anyhow = "*"
base64 = "*"
futures-util = "*"
headers = "*"
http = "*"
mime = "*"
multer = "*"
rustls-pemfile = "*"
serde_json = "*"
serde_urlencoded = "*"
tokio = { version = "*", features = ["rt", "rt-multi-thread", "net", "io-util", "sync", "time", "macros"] }
tokio-rustls = { version = "*", default-features = false, features = ["ring", "logging", "tls12"] }
tracing = "*"

[dev-dependencies]
rcgen = { version = "*", default-features = false, features = ["crypto", "pem", "ring"] }
