[package]
name = "seq_vis_rs"
version = "0.1.0"
edition = "2021"
publish = false

[dependencies]
clap = { version = "*", features = ["derive"] }
ndarray = "*"
ndarray-npy = "*"
plotters = "*"
rand = "*"
