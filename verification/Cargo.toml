[package]
name = "waitgroup"
version = "0.1.0"
edition = "2021"

[dependencies]
atomic-waker = "1"

[dev-dependencies]
futures-util = { version = "0.3", default-features = false, features = ["std"] }
tokio = { version = "1", features = ["rt", "rt-multi-thread", "time"] }
