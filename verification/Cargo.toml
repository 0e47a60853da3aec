[package]
name = "cortexm_threads"
version = "0.1.0"
edition = "2021"
publish = false

[dependencies]
cortex-m = "0.7"
cortex-m-semihosting = "0.5"
