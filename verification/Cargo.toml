[package]
name = "ibkr_bot"
version = "0.1.0"
edition = "2021"
publish = false

[dependencies]
chrono = "*"
chrono-tz = "*"
ibapi = "*"
tokio = { version = "*", features = ["rt-multi-thread", "macros", "time"] }
eyre = "*"
dialoguer = "*"
tracing = "*"
tracing-subscriber = { version = "*", features = ["env-filter", "fmt"] }
