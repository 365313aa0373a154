[package]
name = "signal_bridge"
version = "0.1.0"
edition = "2021"
publish = false

[dependencies]
crossbeam-channel = "0.5"
floem_reactive = "0.2.0"
futures-signals = "0.3"
tokio = { version = "1", features = ["rt", "rt-multi-thread"] }
