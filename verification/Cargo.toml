[package]
name = "push_fanout"
version = "0.1.0"
edition = "2021"
publish = false

[dependencies]
amqprs = "*"
tokio = { version = "*", features = ["macros", "rt-multi-thread", "sync", "time"] }

[dev-dependencies]
serde_json = "*"
