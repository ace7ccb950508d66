[package]
name = "stress_test_cli"
version = "0.1.0"
edition = "2021"
publish = false

[dependencies]
futures = "*"
lazy_static = "*"
parking_lot = "*"
reqwest = { version = "*", default-features = false }
tokio = { version = "*", features = ["rt-multi-thread", "macros"] }
