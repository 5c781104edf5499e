[package]
name = "canary_examples"
version = "0.1.0"
edition = "2021"
publish = false

[dependencies]
fastrand = "=2.5.0"
parity-wordlist = "=1.3.1"
canary = "=0.3.3"
structopt = "=0.3.26"
async-std = "=1.13.2"
tokio = { version = "=1.54.1", features = ["full"] }
