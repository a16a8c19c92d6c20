[package]
name = "blprs"
version = "0.1.0"
edition = "2021"
publish = false

[dependencies]
nalgebra = "0.33"
rand = { version = "0.8", features = ["small_rng"] }
rand_distr = "0.4"
thiserror = "1"
