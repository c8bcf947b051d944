[package]
name = "k2"
version = "0.1.0"
edition = "2021"
publish = false

[dependencies]
wassily = "=0.1.0"
rand = "0.8"
num-traits = "0.2"
directories = "5"
env_logger = "0.10"
