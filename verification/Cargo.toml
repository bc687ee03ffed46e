[package]
name = "masaka"
version = "0.1.0"
edition = "2021"
publish = false

[dependencies]
mqtt-proto = "*"
hashbrown = "*"
bytes = "1"
embedded-io = "*"
embedded-io-async = "*"
tokio = { version = "1", features = ["net", "time", "io-util", "rt", "macros"] }
