[package]
name = "rpcn"
version = "0.1.0"
edition = "2021"
publish = false

[dependencies]
http-body-util = "0.1"
hyper = { version = "1", features = ["server", "http1"] }
hyper-util = { version = "0.1", features = ["tokio"] }
openssl = { version = "0.10", features = ["vendored"] }
parking_lot = "0.12"
prost = "*"
r2d2 = "0.8"
r2d2_sqlite = { version = "*", features = ["bundled"] }
serde = { version = "1", features = ["derive"] }
serde_json = "1"
tokio = { version = "1", features = ["fs", "io-util", "macros", "net", "rt-multi-thread", "sync"] }
tracing = "0.1"
