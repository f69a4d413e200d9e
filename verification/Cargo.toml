[package]
name = "nwahttp"
version = "0.1.0"
edition = "2021"
publish = false

[dependencies]
futures-util = "0.3"
hyper = { version = "0.14", features = ["server", "http1", "tcp"] }
lazy_static = "1"
prometheus = "0.13"
serde = { version = "1", features = ["derive"] }
serde_json = "1"
tokio = { version = "1", features = ["rt-multi-thread", "sync"] }
warp = "0.3"
