[package]
name = "threadstat"
version = "0.1.0"
edition = "2021"
publish = false

[dependencies]
libc = "=0.2.191"
clap = { version = "=4.6.7", features = ["derive"] }
slab = "=0.4.12"
zerocopy = { version = "=0.8.63", features = ["derive"] }
