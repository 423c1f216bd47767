[package]
name = "gcemeta"
version = "0.2.0"
edition = "2021"
publish = false

[dependencies]
serde_json = "1"
serde = "1"
attohttpc = { version = "*", default-features = false }
hyper = { version = "0.14", features = ["client", "http1", "tcp"] }
tokio = { version = "1", features = ["rt", "time", "sync", "macros"] }
bytes = "1"
thiserror = "1"
tracing = "0.1"
