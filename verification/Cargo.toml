[package]
name = "access_logger"
version = "0.1.0"
edition = "2021"
publish = false

[dependencies]
chrono = "0.4"
futures = "0.1"
gotham = "0.2"
gotham_derive = "0.2"
hyper = "0.11"
log = "0.4"
