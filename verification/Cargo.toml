[package]
name = "async_lock"
version = "0.1.0"
edition = "2021"
publish = false

[dependencies]
event-listener = "5"
event-listener-strategy = "0.5"
pin-project-lite = "0.2"
