[package]
name = "oysterpack"
version = "0.1.0"
edition = "2021"
publish = false

[dependencies]
crossbeam = "=0.8.5"
futures = "=0.3.34"
rusty_ulid = "=2.0.1"
