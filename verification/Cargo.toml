[package]
name = "variates"
version = "0.1.0"
edition = "2021"
publish = false

[dependencies]
rand = "*"
num-traits = "*"
serde = { version = "*", features = ["derive"] }

[dev-dependencies]
rand_pcg = "*"
