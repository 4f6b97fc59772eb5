[package]
name = "muxe_broker"
version = "0.1.0"
edition = "2021"
publish = false

[dependencies]
data-encoding = "2"
nix = { version = "0.30", features = ["fs", "process", "signal", "user"] }
notify = "8"
rand = "0.9"
sha2 = "0.10"
thiserror = "2"
tokio = { version = "1", features = ["io-util", "macros", "net", "process", "rt-multi-thread", "sync", "time"] }
tracing = "0.1"
