[package]
name = "finality-pbft"
version = "0.15.0"
edition = "2021"
publish = false

[dependencies]
futures = "0.3"
futures-timer = "3"
parking_lot = "0.12"
log = "0.4"
