[package]
name = "rslock"
version = "0.1.0"
edition = "2021"
publish = false

[dependencies]
rand = "0.8"
redis = { version = "0.23", features = ["tokio-comp"] }
tokio = { version = "1", features = ["macros", "rt-multi-thread", "time"] }
futures = "0.3"
thiserror = "1"
