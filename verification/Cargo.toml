[package]
name = "mod_ardain"
version = "0.1.0"
edition = "2021"
publish = false

[dependencies]
allocator-api2 = { version = "=0.2.21", default-features = false, features = ["alloc"] }
ciborium = "=0.2.2"
hashbrown = "=0.17.1"
serde = { version = "=1.0.229", features = ["derive"] }
skyline = "=0.6.0"
