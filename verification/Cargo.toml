[package]
name = "signal-system"
version = "0.2.0"
edition = "2021"
publish = false

[dependencies]
rkyv = "0.8"
thiserror = "2"
