[package]
name = "metrics_server"
version = "0.1.0"
edition = "2021"
publish = false

[dependencies]
tiny_http = "0.12"

[dev-dependencies]
minreq = "2"
crossbeam-utils = "0.8"
