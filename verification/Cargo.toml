[package]
name = "flor_echo"
version = "0.1.0"
edition = "2021"
publish = false

[dependencies]
rand = "0.9"
tokio = { version = "1", features = ["rt-multi-thread", "macros", "net", "io-util", "sync", "time"] }
tokio-stream = "0.1"
futures = "0.3"
error-stack = "*"
thiserror = "*"
async-trait = "0.1"
log = "0.4"
