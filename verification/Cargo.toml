[package]
name = "kernel_core"
version = "0.1.0"
edition = "2021"
publish = false

[dependencies]
postcard = { version = "=1.1.3", default-features = false, features = ["alloc"] }

[dev-dependencies]
serde = { version = "=1.0.229", default-features = false }
