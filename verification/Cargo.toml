[package]
name = "rustling_slots"
version = "0.1.0"
edition = "2021"
publish = false

[dependencies]
neon = { version = "0.10", default-features = false, features = ["napi-6"] }
neon-serde3 = "0.10"
serde = { version = "1", features = ["derive"] }
chrono = "0.4"
