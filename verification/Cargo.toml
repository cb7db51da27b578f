[package]
name = "executor_service"
version = "0.1.0"
edition = "2021"
publish = false

[dependencies]
bcs = "0.1"
num_cpus = "1"
clap = { version = "3.2", features = ["derive"] }
rayon = "1"
once_cell = "1"
jemallocator = "0.5"
