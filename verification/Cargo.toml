[package]
name = "remotext"
version = "0.3.0"
edition = "2021"
publish = false

[dependencies]
anyhow = "=1.0.104"
base64 = "=0.22.1"
hmac = "=0.12.1"
iroh = { version = "=1.4.1", default-features = false, features = ["tls-ring"] }
opaque-ke = { version = "=4.0.1", features = ["argon2"] }
postcard = { version = "=1.1.3", features = ["use-std"] }
rand = "=0.8.8"
serde = { version = "=1.0.229", features = ["derive"] }
serde_json = "=1.0.154"
sha2 = "=0.10.9"
tokio = { version = "=1.54.1", features = ["rt-multi-thread", "macros", "io-util", "net", "fs", "process", "sync", "time", "signal"] }
tracing = "=0.1.44"
zeroize = "=1.9.1"
