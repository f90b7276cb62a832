[package]
name = "sparkler"
version = "0.1.0"
edition = "2021"
publish = false

[dependencies]
nix = "0.26"
unshare = "0.7"
hyper = { version = "0.14", features = ["client", "http1"] }
hyperlocal = "0.8"
http = "0.2"
tokio = { version = "1", features = ["rt-multi-thread", "macros", "time"] }
serde = { version = "1", features = ["derive"] }
serde_json = "1"
thiserror = "1"
tracing = "0.1"
tracing-subscriber = { version = "0.3", features = ["fmt"] }
