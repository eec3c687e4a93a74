[package]
name = "event_listener_primitives"
version = "0.1.0"
edition = "2021"
publish = false

[dependencies]
parking_lot = "0.12"
tinyvec = { version = "1", features = ["alloc"] }
