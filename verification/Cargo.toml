[package]
name = "linera-execution"
version = "0.1.0"
edition = "2021"
publish = false

[dependencies]
linera-base = "*"
linera-views = { version = "*", default-features = false }
tokio = { version = "1", default-features = false, features = ["sync"] }
