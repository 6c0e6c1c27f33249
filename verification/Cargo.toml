[package]
name = "midasio"
version = "0.1.0"
edition = "2021"
publish = false

[dependencies]
rayon = "1"
thiserror = "1"
winnow = "0.7"
