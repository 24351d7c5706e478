[package]
name = "wakeup"
version = "0.1.0"
edition = "2021"
publish = false

[dependencies]
smallvec = "1"
rustix = { version = "1", features = ["fs"] }
