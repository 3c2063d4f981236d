[package]
name = "relay_event_schema"
version = "0.1.0"
edition = "2021"
publish = false

[dependencies]
enumset = "1"
sentry-release-parser = { version = "1", default-features = false }
thiserror = "2"
uuid = { version = "1", features = ["v4"] }
