[package]
name = "echo_state_network"
version = "0.1.0"
edition = "2021"
publish = false

[dependencies]
chrono = "=0.4.45"
nalgebra = { version = "=0.33.3", features = ["serde-serialize"] }
petgraph = "0.6"
petgraph-gen = "=0.1.3"
rand = "0.8"
rand_distr = "=0.4.3"
serde = { version = "=1.0.229", features = ["derive"] }
serde_json = "=1.0.154"
