[package]
name = "fast"
version = "0.1.0"
edition = "2021"

[dependencies]
crossbeam-utils = "0.8"
