[package]
name = "message_dispatch"
version = "0.1.0"
edition = "2021"
publish = false

[dependencies]
smol = "=2.0.2"
oneshot = { version = "=0.2.1", features = ["std", "async"] }
futures = "=0.3.34"
