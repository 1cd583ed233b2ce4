[package]
name = "remote-luks-unlocker"
version = "0.1.0"
edition = "2021"
publish = false

[dependencies]
anyhow = "1"
clap = { version = "4", features = ["env"] }
tokio = { version = "1", features = ["rt", "macros", "process", "io-util", "time", "fs", "signal"] }
tracing = "0.1"
tracing-subscriber = { version = "0.3", features = ["env-filter", "fmt"] }
