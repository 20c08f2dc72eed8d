[package]
name = "tracing_subscriber_reload_arcswap"
version = "0.1.0"
edition = "2021"
publish = false

[dependencies]
arc-swap = "*"
tracing-core = "*"
tracing-log = "*"
tracing-subscriber = "*"
