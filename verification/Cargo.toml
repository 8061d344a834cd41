[package]
name = "lau-kalman-hodge"
version = "0.1.0"
edition = "2021"
publish = false

[dependencies]
nalgebra = { version = "0.33", features = ["serde-serialize"] }
rustfft = "6"
num-complex = { version = "0.4", features = ["serde"] }
serde = { version = "1", features = ["derive"] }
