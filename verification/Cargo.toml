[package]
name = "prefix_proxy"
version = "0.1.0"
edition = "2021"
publish = false

[dependencies]
chrono = "*"
futures = "0.1"
getopts = "*"
hyper = "0.12"
hyper-reverse-proxy = "0.4"
