[package]
name = "dawn_telemetry"
version = "0.1.0"
edition = "2021"
publish = false

[dependencies]
memmap2 = "*"
