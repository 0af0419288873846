[package]
name = "mcp49xx"
version = "0.2.0"
edition = "2021"
publish = false

[dependencies]
embedded-hal = "0.2"

[dev-dependencies]
embedded-hal-mock = "0.9"
