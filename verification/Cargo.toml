[package]
name = "omni-sense-core"
version = "0.1.0"
edition = "2021"
publish = false

[dependencies]
nalgebra = { version = "=0.35.0", features = ["serde-serialize"] }
serde = { version = "=1.0.229", features = ["derive"] }
thiserror = "=2.0.21"
