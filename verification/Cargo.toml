[package]
name = "lightbus"
version = "0.1.0"
edition = "2021"
publish = false

[dependencies]
futures = "=0.3.34"
fxhash = "=0.2.1"
rustc-hash = "=2.1.3"
uuid = { version = "=1.29.0", features = ["v4"] }
crossbeam-utils = "=0.8.23"
lazy_static = "=1.5.1"
objekt = "=0.1.2"
