[package]
name = "socks_relay"
version = "0.1.0"
edition = "2021"
publish = false

[dependencies]
itertools = "*"
tokio = { version = "1", features = ["full"] }
clap = { version = "4", features = ["derive", "env"] }
color-eyre = "0.6"
tracing = "0.1"
tracing-error = "0.2"
tracing-subscriber = { version = "0.3", features = ["env-filter"] }
