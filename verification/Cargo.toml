[package]
name = "guest_platform"
version = "0.1.0"
edition = "2021"
publish = false

[dependencies]
risc0-binfmt = "=3.0.5"
risc0-zkp = "=3.0.5"
risc0-zkvm-platform = "=2.2.3"
