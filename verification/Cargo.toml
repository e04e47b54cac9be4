[package]
name = "argonbench"
version = "0.1.0"
edition = "2021"

[dependencies]
rust-argon2 = "1.0"
rand = "0.8"
stopwatch = "0.0.7"
