[package]
name = "cdc_poller"
version = "0.1.0"
edition = "2021"
publish = false

[dependencies]
chrono = "0.4"
futures-util = "0.3"
hex = "0.4"
scylla = "0.8"
tokio = { version = "1", features = ["rt-multi-thread", "macros", "time"] }
