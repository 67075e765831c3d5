[package]
name = "total_priority"
version = "0.1.0"
edition = "2021"

[dependencies]
fnv = "1.0.7"
