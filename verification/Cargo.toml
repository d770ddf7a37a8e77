[package]
name = "imxrt_core"
version = "0.1.0"
edition = "2021"
publish = false

[dependencies]
critical-section = "=1.2.0"
embassy-hal-internal = { version = "=0.5.0", features = ["cortex-m", "prio-bits-3"] }
embedded-hal = "=0.2.7"
embedded-hal-nb = "=1.0.0"
embedded-io = "=0.6.1"
embedded-io-async = "=0.6.1"
nb = "=1.1.0"
