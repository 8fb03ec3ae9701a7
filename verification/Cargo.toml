[package]
name = "ra4m2_hal"
version = "0.1.0"
edition = "2021"
publish = false

[dependencies]
cortex-m = "=0.7.10"
embedded-hal = { version = "=0.2.7", features = ["unproven"] }
embedded-time = "=0.12.1"
num-traits = { version = "=0.2.19", default-features = false }
ra4m2-pac = { version = "=0.3.0", features = ["agt0", "icu", "iic0", "mstp", "pfs", "port4", "sysc"] }
