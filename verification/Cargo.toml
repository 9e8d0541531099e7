[package]
name = "buttplug_matchbox"
version = "0.1.0"
edition = "2021"
publish = false

[dependencies]
buttplug = { version = "=7.1.16", default-features = false, features = ["tokio-runtime", "client", "server", "serialize-json"] }
matchbox_socket = { version = "=0.9.0", default-features = false }
futures = "0.3"
futures-timer = "3"
async-trait = "0.1"
tokio = { version = "1", features = ["rt", "sync", "macros"] }
serde_json = "1"
tracing = "0.1"
