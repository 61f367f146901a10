[package]
name = "ehci"
version = "0.1.0"
edition = "2021"
publish = false

[dependencies]
volatile = { version = "0.6", features = ["derive"] }
log = "0.4"
futures = { version = "0.3", default-features = false, features = ["alloc"] }
embedded-hal-async = "1"
debug-ignore = "1"
