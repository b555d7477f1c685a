[package]
name = "puzzle_sampler"
version = "0.1.0"
edition = "2021"
publish = false

[dependencies]
rlua = "0.19"
anyhow = "1"
