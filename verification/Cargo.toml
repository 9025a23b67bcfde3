[package]
name = "shardctl"
version = "0.1.0"
edition = "2021"
publish = false

[dependencies]
tokio = { version = "1", features = ["rt-multi-thread", "net", "sync", "macros", "time"] }
ctrlc = "3"
structopt = "0.3"
tracing = "0.1"
tracing-subscriber = "0.3"
