[package]
name = "maknae_kernel"
version = "0.1.0"
edition = "2021"
publish = false

[dependencies]
nix = { version = "=0.31.3", features = ["user", "poll", "socket"] }
tokio = { version = "=1.54.1", features = ["rt", "rt-multi-thread", "time", "signal", "sync", "macros"] }
