[package]
name = "protopathy"
version = "0.1.0"
edition = "2021"
publish = false

[dependencies]
url = "*"
triggered = "*"
tonic = "*"
tokio = { version = "*", features = ["rt-multi-thread", "net", "time", "macros", "fs"] }
tokio-stream = { version = "*", features = ["net"] }
