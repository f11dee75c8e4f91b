[package]
name = "pincel"
version = "0.1.0"
edition = "2021"
publish = false

[dependencies]
rand = "=0.9.5"
rand_core = "=0.9.5"
rand_xoshiro = "=0.7.0"
fnv = "=1.0.7"
rustc-hash = "=2.1.3"
itertools = "=0.14.0"
serde = { version = "=1.0.229", features = ["derive"] }
colored = "=2.2.0"
crossterm = "0.28"
noise = "0.9"
once_cell = "1"
