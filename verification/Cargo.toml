[package]
name = "numerical_integration"
version = "0.1.0"
edition = "2021"
publish = false

[dependencies]
maths-traits = "*"
