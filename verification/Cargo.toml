[package]
name = "rgbcal"
version = "0.1.0"
edition = "2021"
publish = false

[dependencies]
embassy-executor = { version = "=0.10.0", features = ["platform-std", "executor-thread"] }
embassy-futures = "=0.1.2"
embassy-sync = { version = "=0.8.0", features = ["std"] }
embassy-time = "=0.5.1"
microbit-bsp = "=0.4.0"
rtt-target = "=0.6.2"

[dev-dependencies]
num-traits = "=0.2.19"
